use voxel_game::math::IVec3;
use voxel_game::voxel::block::Block;
use voxel_game::voxel::block::BlockType;
use voxel_game::voxel::chunk::Chunk;
use voxel_game::voxel::chunk::CHUNK_VOLUME;
use voxel_game::voxel::codec::ChunkDecodeError;
use voxel_game::voxel::codec::CHUNK_BYTES;

fn patterned(pos: IVec3) -> Chunk {
    let mut chunk = Chunk::default();
    chunk.pos = pos;
    for i in 0..CHUNK_VOLUME {
        chunk.voxels[i] = Block {
            voxel_type: match (i / 7) % 4 {
                0 => BlockType::Void,
                1 => BlockType::Grass,
                2 => BlockType::Dirt,
                _ => BlockType::Stone,
            },
        };
    }
    chunk
}

#[test]
fn flat_form_layout() {
    let mut chunk = Chunk::default();
    chunk.pos = IVec3::new(1, -1, 0x01020304);
    chunk.voxels[0] = Block { voxel_type: BlockType::Grass };
    chunk.voxels[1] = Block { voxel_type: BlockType::Dirt };
    chunk.voxels[65535] = Block { voxel_type: BlockType::Stone };
    let bytes = chunk.to_bytes();
    assert_eq!(bytes.len(), CHUNK_BYTES);
    assert_eq!(bytes.len(), 65548);
    assert_eq!(bytes[0], 1);
    assert_eq!(bytes[1], 2);
    assert_eq!(bytes[2], 0);
    assert_eq!(bytes[65535], 3);
    assert_eq!(&bytes[65536..65540], &[1, 0, 0, 0]);
    assert_eq!(&bytes[65540..65544], &[255, 255, 255, 255]);
    assert_eq!(&bytes[65544..65548], &[4, 3, 2, 1]);
    assert_eq!(&bytes[65536..65540], &1i32.to_le_bytes());
    assert_eq!(&bytes[65540..65544], &(-1i32).to_le_bytes());
}

#[test]
fn flat_form_round_trip() {
    let chunk = patterned(IVec3::new(i32::MIN, i32::MAX, -123456));
    let bytes = chunk.to_bytes();
    let back = Chunk::from_bytes(&bytes).unwrap();
    assert_eq!(back.voxels, chunk.voxels);
    assert_eq!(back.pos, chunk.pos);
    assert_eq!(back.neighbors, [None, None, None, None]);
    assert_eq!(back.to_bytes(), bytes);
}

#[test]
fn flat_form_is_checked() {
    let chunk = patterned(IVec3::new(0, 0, 0));
    let bytes = chunk.to_bytes();
    assert!(Chunk::from_bytes(&bytes[..bytes.len() - 1].to_vec()).is_none());
    let mut longer = bytes.clone();
    longer.push(0);
    assert!(Chunk::from_bytes(&longer).is_none());
    let mut bad_tag = bytes.clone();
    bad_tag[100] = 4;
    assert!(Chunk::from_bytes(&bad_tag).is_none());
    assert!(Chunk::from_bytes(&Vec::new()).is_none());
}

#[test]
fn compress_round_trip() {
    let chunk = patterned(IVec3::new(-3, 0, 12));
    let bytes = chunk.compress();
    let back = Chunk::from_compressed(&bytes).unwrap();
    assert_eq!(back.voxels, chunk.voxels);
    assert_eq!(back.pos, chunk.pos);
    assert_eq!(back.neighbors, [None, None, None, None]);
    assert_eq!(back.compress(), bytes);
}

#[test]
fn compress_drops_links() {
    let mut chunk = patterned(IVec3::new(0, 0, 0));
    chunk.set_neighbor(1, Some(IVec3::new(1, 0, 0)));
    let back = Chunk::from_compressed(&chunk.compress()).unwrap();
    assert_eq!(back.neighbors, [None, None, None, None]);
    assert_eq!(back.voxels, chunk.voxels);
}

#[test]
fn compress_really_compresses() {
    let chunk = Chunk::default();
    let flat = chunk.to_bytes();
    let bytes = chunk.compress();
    assert!(bytes.len() < 1000);
    assert_ne!(bytes, flat);
    assert_eq!(&bytes[0..4], &(flat.len() as u32).to_le_bytes());
    assert_eq!(lz4::block::decompress(&bytes, None).unwrap(), flat);
}

#[test]
fn from_compressed_rejects_what_is_no_block() {
    assert_eq!(Chunk::from_compressed(&Vec::new()), Err(ChunkDecodeError::Decompression));
    assert_eq!(Chunk::from_compressed(&vec![1, 2, 3]), Err(ChunkDecodeError::Decompression));
    assert_eq!(
        Chunk::from_compressed(&vec![255, 255, 255, 255, 0, 0]),
        Err(ChunkDecodeError::Decompression)
    );
    let flat = Chunk::default().to_bytes();
    assert_eq!(Chunk::from_compressed(&flat), Err(ChunkDecodeError::Decompression));
}

#[test]
fn from_compressed_rejects_what_is_no_chunk() {
    let short = lz4::block::compress(&[0u8; 100], None, true).unwrap();
    assert_eq!(Chunk::from_compressed(&short), Err(ChunkDecodeError::Malformed));
    let mut flat = Chunk::default().to_bytes();
    flat[7] = 9;
    let bad = lz4::block::compress(&flat, None, true).unwrap();
    assert_eq!(Chunk::from_compressed(&bad), Err(ChunkDecodeError::Malformed));
}

#[test]
fn from_compressed_reads_any_block_of_a_chunk() {
    let chunk = patterned(IVec3::new(5, 6, 7));
    let fast = lz4::block::compress(&chunk.to_bytes(), None, true).unwrap();
    let back = Chunk::from_compressed(&fast).unwrap();
    assert_eq!(back.voxels, chunk.voxels);
    assert_eq!(back.pos, IVec3::new(5, 6, 7));
}

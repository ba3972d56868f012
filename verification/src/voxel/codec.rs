//! The wire form of a chunk: its cells and its position written to a flat
//! buffer, and the buffer compressed as one block.

use vstd::prelude::*;
use crate::math::IVec3;
use crate::voxel::block::Block;
use crate::voxel::block::BlockType;
use crate::voxel::chunk::no_links;
use crate::voxel::chunk::Chunk;
use crate::voxel::chunk::CompressedChunk;
use crate::voxel::chunk::CHUNK_VOLUME;

verus! {

/// Length of the flat form of a chunk: one byte for each cell, then four
/// bytes for each component of the position.
pub const CHUNK_BYTES: usize = 65548;

/// The effort the block compressor is asked to spend, the highest it knows.
pub const COMPRESSION_LEVEL: i32 = 12;

/// The longest input the block compressor takes.
pub const LZ4_MAX_INPUT_SIZE: usize = 0x7E00_0000;

/// Why a received chunk could not be read.
#[derive(Clone, Copy, Debug, PartialEq, Eq, Structural)]
pub enum ChunkDecodeError {
    /// The payload is not a compressed block.
    Decompression,
    /// The block does not hold the flat form of a chunk.
    Malformed,
}

/// The byte that stands for a block type.
pub open spec fn tag_of(t: BlockType) -> u8 {
    match t {
        BlockType::Void => 0,
        BlockType::Grass => 1,
        BlockType::Dirt => 2,
        BlockType::Stone => 3,
    }
}

/// The block type that a byte stands for.
pub open spec fn type_of(tag: u8) -> Option<BlockType> {
    if tag == 0 {
        Some(BlockType::Void)
    } else if tag == 1 {
        Some(BlockType::Grass)
    } else if tag == 2 {
        Some(BlockType::Dirt)
    } else if tag == 3 {
        Some(BlockType::Stone)
    } else {
        None
    }
}

/// A signed 32-bit number as the unsigned number with the same bits.
pub open spec fn unsigned_of(x: i32) -> int {
    if x >= 0 {
        x as int
    } else {
        x + 0x1_0000_0000
    }
}

/// The byte of weight `256^k` of a signed 32-bit number in two's
/// complement.
pub open spec fn word_byte(x: i32, k: int) -> u8 {
    if k == 0 {
        (unsigned_of(x) % 256) as u8
    } else if k == 1 {
        ((unsigned_of(x) / 0x100) % 256) as u8
    } else if k == 2 {
        ((unsigned_of(x) / 0x1_0000) % 256) as u8
    } else {
        ((unsigned_of(x) / 0x100_0000) % 256) as u8
    }
}

/// The signed 32-bit number whose two's complement is the four bytes of
/// `bytes` from `at` on, lowest first.
pub open spec fn word_at(bytes: Seq<u8>, at: int) -> i32 {
    let u = bytes[at] + bytes[at + 1] * 0x100 + bytes[at + 2] * 0x1_0000 + bytes[at + 3] * 0x100_0000;
    if u < 0x8000_0000 {
        u as i32
    } else {
        (u - 0x1_0000_0000) as i32
    }
}

/// The flat form of a chunk: the tag of each cell in the order of the cell
/// array, then the components of the position, each in two's complement
/// with the lowest byte first.
pub open spec fn encoded(voxels: Seq<Block>, pos: IVec3) -> Seq<u8> {
    Seq::new(
        CHUNK_BYTES as nat,
        |i: int|
            if i < CHUNK_VOLUME {
                tag_of(voxels[i].voxel_type)
            } else if i < CHUNK_VOLUME + 4 {
                word_byte(pos.x, i - CHUNK_VOLUME)
            } else if i < CHUNK_VOLUME + 8 {
                word_byte(pos.y, i - CHUNK_VOLUME - 4)
            } else {
                word_byte(pos.z, i - CHUNK_VOLUME - 8)
            },
    )
}

/// Whether a buffer is the flat form of some chunk.
pub open spec fn is_encoding(bytes: Seq<u8>) -> bool {
    &&& bytes.len() == CHUNK_BYTES
    &&& forall|i: int| 0 <= i < CHUNK_VOLUME ==> #[trigger] bytes[i] < 4
}

/// The cells and the position that a flat buffer holds.
pub open spec fn decoded(bytes: Seq<u8>) -> Option<(Seq<Block>, IVec3)> {
    if is_encoding(bytes) {
        Some(
            (
                Seq::new(CHUNK_VOLUME as nat, |i: int| Block { voxel_type: type_of(bytes[i]).unwrap() }),
                IVec3 {
                    x: word_at(bytes, CHUNK_VOLUME as int),
                    y: word_at(bytes, CHUNK_VOLUME + 4),
                    z: word_at(bytes, CHUNK_VOLUME + 8),
                },
            ),
        )
    } else {
        None
    }
}

/// What `lz4::block::decompress` returns for a block that starts with the
/// length of its content: the content, or nothing where it reports an
/// error.
pub uninterp spec fn lz4_decompressed(src: Seq<u8>) -> Option<Seq<u8>>;

/// The cells and the position that a compressed chunk holds.
pub open spec fn decompressed(bytes: Seq<u8>) -> Option<(Seq<Block>, IVec3)> {
    match lz4_decompressed(bytes) {
        Some(flat) => decoded(flat),
        None => None,
    }
}

/// Calls `lz4::block::compress` in its high-compression mode and has the
/// length of the input written in front of the block. The contract claims
/// what the library documents: an input within the compressor's limit is
/// always compressed, and decompressing the result gives the input back.
#[verifier::external_body]
fn lz4_compress_high(src: &Vec<u8>, level: i32) -> (out: Option<Vec<u8>>)
    ensures
        src@.len() <= LZ4_MAX_INPUT_SIZE ==> out is Some,
        out matches Some(packed) ==> lz4_decompressed(packed@) == Some(src@),
{
    lz4::block::compress(src, Some(lz4::block::CompressionMode::HIGHCOMPRESSION(level)), true).ok()
}

/// Calls `lz4::block::decompress` on a block that starts with the length of
/// its content. The contract gives the outcome its name and claims nothing
/// more.
#[verifier::external_body]
fn lz4_decompress(src: &Vec<u8>) -> (out: Option<Vec<u8>>)
    ensures
        out matches Some(flat) ==> lz4_decompressed(src@) == Some(flat@),
        out is None ==> lz4_decompressed(src@) is None,
{
    lz4::block::decompress(src, None).ok()
}

fn tag(t: BlockType) -> (b: u8)
    ensures
        b == tag_of(t),
        b < 4,
        type_of(b) == Some(t),
{
    match t {
        BlockType::Void => 0,
        BlockType::Grass => 1,
        BlockType::Dirt => 2,
        BlockType::Stone => 3,
    }
}

fn push_word(out: &mut Vec<u8>, x: i32)
    ensures
        final(out)@.len() == old(out)@.len() + 4,
        forall|i: int| 0 <= i < old(out)@.len() ==> final(out)@[i] == old(out)@[i],
        forall|k: int| 0 <= k < 4 ==> #[trigger] final(out)@[old(out)@.len() + k] == word_byte(x, k),
{
    let u: u32 = if x >= 0 {
        x as u32
    } else {
        (x as i64 + 0x1_0000_0000) as u32
    };
    out.push((u % 256) as u8);
    out.push(((u / 0x100) % 256) as u8);
    out.push(((u / 0x1_0000) % 256) as u8);
    out.push(((u / 0x100_0000) % 256) as u8);
}

fn read_word(bytes: &Vec<u8>, at: usize) -> (x: i32)
    requires
        at + 4 <= bytes@.len(),
    ensures
        x == word_at(bytes@, at as int),
{
    let n = bytes.len();
    let u: u64 = bytes[at] as u64 + bytes[at + 1] as u64 * 0x100 + bytes[at + 2] as u64 * 0x1_0000
        + bytes[at + 3] as u64 * 0x100_0000;
    if u < 0x8000_0000 {
        u as i32
    } else {
        (u as i64 - 0x1_0000_0000) as i32
    }
}

/// Reading the flat form of a chunk gives the chunk's cells and position
/// back.
pub proof fn lemma_decode_encode(voxels: Seq<Block>, pos: IVec3)
    requires
        voxels.len() == CHUNK_VOLUME,
    ensures
        decoded(encoded(voxels, pos)) == Some((voxels, pos)),
{
    let bytes = encoded(voxels, pos);
    assert(is_encoding(bytes));
    let (cells, at) = decoded(bytes).unwrap();
    assert(cells =~= voxels);
    lemma_word(pos.x);
    lemma_word(pos.y);
    lemma_word(pos.z);
    assert(word_at(bytes, CHUNK_VOLUME as int) == pos.x);
    assert(word_at(bytes, CHUNK_VOLUME + 4) == pos.y);
    assert(word_at(bytes, CHUNK_VOLUME + 8) == pos.z);
}

/// Writing down what was read from a flat buffer gives the buffer back.
pub proof fn lemma_encode_decode(bytes: Seq<u8>)
    requires
        is_encoding(bytes),
    ensures
        encoded(decoded(bytes).unwrap().0, decoded(bytes).unwrap().1) == bytes,
{
    let (cells, pos) = decoded(bytes).unwrap();
    let back = encoded(cells, pos);
    assert forall|i: int| 0 <= i < CHUNK_BYTES implies back[i] == bytes[i] by {
        if i < CHUNK_VOLUME {
            assert(bytes[i] < 4);
        } else if i < CHUNK_VOLUME + 4 {
            lemma_bytes(bytes, CHUNK_VOLUME as int, i - CHUNK_VOLUME);
        } else if i < CHUNK_VOLUME + 8 {
            lemma_bytes(bytes, CHUNK_VOLUME + 4, i - CHUNK_VOLUME - 4);
        } else {
            lemma_bytes(bytes, CHUNK_VOLUME + 8, i - CHUNK_VOLUME - 8);
        }
    }
    assert(back =~= bytes);
}

/// The digits of a number written in base 256 are what it was made of.
proof fn lemma_digits(b0: int, b1: int, b2: int, b3: int)
    requires
        0 <= b0 < 256,
        0 <= b1 < 256,
        0 <= b2 < 256,
        0 <= b3 < 256,
    ensures
        ({
            let u = b0 + b1 * 0x100 + b2 * 0x1_0000 + b3 * 0x100_0000;
            &&& 0 <= u < 0x1_0000_0000
            &&& u % 256 == b0
            &&& (u / 0x100) % 256 == b1
            &&& (u / 0x1_0000) % 256 == b2
            &&& (u / 0x100_0000) % 256 == b3
        }),
{
    let u = b0 + b1 * 0x100 + b2 * 0x1_0000 + b3 * 0x100_0000;
    let q1 = b1 + b2 * 0x100 + b3 * 0x1_0000;
    let q2 = b2 + b3 * 0x100;
    vstd::arithmetic::div_mod::lemma_fundamental_div_mod_converse(u, 0x100, q1, b0);
    vstd::arithmetic::div_mod::lemma_fundamental_div_mod_converse(q1, 0x100, q2, b1);
    vstd::arithmetic::div_mod::lemma_fundamental_div_mod_converse(q2, 0x100, b3, b2);
    vstd::arithmetic::div_mod::lemma_fundamental_div_mod_converse(b3, 0x100, 0, b3);
    vstd::arithmetic::div_mod::lemma_fundamental_div_mod_converse(u, 0x1_0000, q2, b0 + b1 * 0x100);
    vstd::arithmetic::div_mod::lemma_fundamental_div_mod_converse(
        u,
        0x100_0000,
        b3,
        b0 + b1 * 0x100 + b2 * 0x1_0000,
    );
}

/// The four bytes of a number put together give the number.
proof fn lemma_word(x: i32)
    ensures
        ({
            let u = word_byte(x, 0) + word_byte(x, 1) * 0x100 + word_byte(x, 2) * 0x1_0000 + word_byte(
                x,
                3,
            ) * 0x100_0000;
            &&& u == unsigned_of(x)
            &&& (u < 0x8000_0000 <==> x >= 0)
        }),
{
    let n = unsigned_of(x);
    let q1 = n / 0x100;
    let q2 = q1 / 0x100;
    let q3 = q2 / 0x100;
    assert(n == q1 * 0x100 + n % 0x100);
    assert(q1 == q2 * 0x100 + q1 % 0x100);
    assert(q2 == q3 * 0x100 + q2 % 0x100);
    assert(0 <= q3 < 0x100);
    vstd::arithmetic::div_mod::lemma_fundamental_div_mod_converse(n, 0x1_0000, q2, (q1 % 0x100) * 0x100 + n % 0x100);
    vstd::arithmetic::div_mod::lemma_fundamental_div_mod_converse(
        n,
        0x100_0000,
        q3,
        (q2 % 0x100) * 0x1_0000 + (q1 % 0x100) * 0x100 + n % 0x100,
    );
    vstd::arithmetic::div_mod::lemma_fundamental_div_mod_converse(q3, 0x100, 0, q3);
}

/// The number made of four bytes has those four bytes.
proof fn lemma_bytes(bytes: Seq<u8>, at: int, k: int)
    requires
        0 <= at,
        at + 4 <= bytes.len(),
        0 <= k < 4,
    ensures
        word_byte(word_at(bytes, at), k) == bytes[at + k],
{
    let b0 = bytes[at] as int;
    let b1 = bytes[at + 1] as int;
    let b2 = bytes[at + 2] as int;
    let b3 = bytes[at + 3] as int;
    lemma_digits(b0, b1, b2, b3);
    let u = b0 + b1 * 0x100 + b2 * 0x1_0000 + b3 * 0x100_0000;
    assert(unsigned_of(word_at(bytes, at)) == u);
}

impl Chunk {
    /// The flat form of the chunk, see [`encoded`]. The links are not part
    /// of it.
    pub fn to_bytes(&self) -> (out: Vec<u8>)
        requires
            self.wf(),
        ensures
            out@ == encoded(self.voxels@, self.pos),
    {
        let mut out: Vec<u8> = Vec::with_capacity(CHUNK_BYTES);
        let mut i: usize = 0;
        while i < CHUNK_VOLUME
            invariant
                self.wf(),
                i <= CHUNK_VOLUME,
                out@.len() == i,
                forall|j: int| 0 <= j < i ==> #[trigger] out@[j] == tag_of(self.voxels@[j].voxel_type),
            decreases CHUNK_VOLUME - i,
        {
            out.push(tag(self.voxels[i].voxel_type));
            i = i + 1;
        }
        push_word(&mut out, self.pos.x);
        push_word(&mut out, self.pos.y);
        push_word(&mut out, self.pos.z);
        proof {
            let want = encoded(self.voxels@, self.pos);
            assert forall|j: int| 0 <= j < CHUNK_BYTES implies out@[j] == want[j] by {
                if j >= CHUNK_VOLUME + 8 {
                    assert(out@[CHUNK_VOLUME + 8 + (j - CHUNK_VOLUME - 8)] == word_byte(
                        self.pos.z,
                        j - CHUNK_VOLUME - 8,
                    ));
                } else if j >= CHUNK_VOLUME + 4 {
                    assert(out@[CHUNK_VOLUME + 4 + (j - CHUNK_VOLUME - 4)] == word_byte(
                        self.pos.y,
                        j - CHUNK_VOLUME - 4,
                    ));
                } else if j >= CHUNK_VOLUME {
                    assert(out@[CHUNK_VOLUME + (j - CHUNK_VOLUME)] == word_byte(
                        self.pos.x,
                        j - CHUNK_VOLUME,
                    ));
                }
            }
            assert(out@ =~= want);
        }
        out
    }

    /// Reads a chunk from its flat form. There is a chunk exactly where the
    /// buffer has the length of a flat chunk and every cell byte stands for
    /// a block type. The chunk comes without links.
    pub fn from_bytes(bytes: &Vec<u8>) -> (r: Option<Chunk>)
        ensures
            match r {
                Some(chunk) => {
                    &&& chunk.wf()
                    &&& decoded(bytes@) == Some((chunk.voxels@, chunk.pos))
                    &&& chunk.neighbors@ == no_links()
                },
                None => decoded(bytes@) is None,
            },
    {
        if bytes.len() != CHUNK_BYTES {
            return None;
        }
        let mut voxels: Vec<Block> = Vec::with_capacity(CHUNK_VOLUME);
        let mut i: usize = 0;
        while i < CHUNK_VOLUME
            invariant
                bytes@.len() == CHUNK_BYTES,
                i <= CHUNK_VOLUME,
                voxels@.len() == i,
                forall|j: int| 0 <= j < i ==> #[trigger] bytes@[j] < 4,
                forall|j: int|
                    0 <= j < i ==> type_of(bytes@[j]) == Some((#[trigger] voxels@[j]).voxel_type),
            decreases CHUNK_VOLUME - i,
        {
            let t = bytes[i];
            let voxel_type = if t == 0 {
                BlockType::Void
            } else if t == 1 {
                BlockType::Grass
            } else if t == 2 {
                BlockType::Dirt
            } else if t == 3 {
                BlockType::Stone
            } else {
                assert(!(bytes@[i as int] < 4));
                return None;
            };
            voxels.push(Block { voxel_type });
            i = i + 1;
        }
        let pos = IVec3::new(
            read_word(bytes, CHUNK_VOLUME),
            read_word(bytes, CHUNK_VOLUME + 4),
            read_word(bytes, CHUNK_VOLUME + 8),
        );
        let chunk = Chunk { voxels, pos, neighbors: [None, None, None, None] };
        proof {
            assert(is_encoding(bytes@));
            assert(chunk.voxels@ =~= decoded(bytes@).unwrap().0);
            assert(chunk.neighbors@ =~= no_links());
        }
        Some(chunk)
    }

    /// Reads a chunk from its wire form, see [`decompressed`]. The chunk
    /// comes without links.
    pub fn from_compressed(bytes: &CompressedChunk) -> (r: Result<Chunk, ChunkDecodeError>)
        ensures
            match r {
                Ok(chunk) => {
                    &&& chunk.wf()
                    &&& decompressed(bytes@) == Some((chunk.voxels@, chunk.pos))
                    &&& chunk.neighbors@ == no_links()
                },
                Err(ChunkDecodeError::Decompression) => lz4_decompressed(bytes@) is None,
                Err(ChunkDecodeError::Malformed) => lz4_decompressed(bytes@) matches Some(flat)
                    && decoded(flat) is None,
            },
    {
        match lz4_decompress(bytes) {
            Some(flat) => match Chunk::from_bytes(&flat) {
                Some(chunk) => Ok(chunk),
                None => Err(ChunkDecodeError::Malformed),
            },
            None => Err(ChunkDecodeError::Decompression),
        }
    }

    /// The wire form of the chunk: its flat form, compressed as one block
    /// with the highest effort. Reading the result gives the chunk's cells
    /// and position back.
    pub fn compress(&self) -> (bytes: CompressedChunk)
        requires
            self.wf(),
        ensures
            decompressed(bytes@) == Some((self.voxels@, self.pos)),
    {
        let data = self.to_bytes();
        proof {
            lemma_decode_encode(self.voxels@, self.pos);
        }
        match lz4_compress_high(&data, COMPRESSION_LEVEL) {
            Some(bytes) => bytes,
            None => {
                assert(false);
                Vec::new()
            },
        }
    }
}

} // verus!

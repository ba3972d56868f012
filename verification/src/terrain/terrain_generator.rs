//! Terrain: from the height of each column of a chunk to the chunk's cells.

use vstd::prelude::*;
use crate::math::IVec3;
use crate::voxel::block::Block;
use crate::voxel::block::BlockType;
use crate::voxel::chunk::Chunk;
use crate::voxel::chunk::ChunkData;
use crate::voxel::chunk::CHUNK_HEIGHT;
use crate::voxel::chunk::CHUNK_SIZE;
use crate::voxel::chunk::CHUNK_VOLUME;

verus! {

/// Number of columns of a chunk.
pub const CHUNK_COLUMNS: usize = 256;

/// The terrain generator. It has no state but its seed, which selects the
/// noise field that gives the columns their heights.
#[derive(Clone, Copy, Debug, PartialEq, Eq, Structural)]
pub struct TerrainGenerator {
    seed: i32,
}

impl Default for TerrainGenerator {
    fn default() -> (g: TerrainGenerator)
        ensures
            g.spec_seed() == 0,
    {
        TerrainGenerator { seed: 0 }
    }
}

impl TerrainGenerator {
    pub closed spec fn spec_seed(&self) -> i32 {
        self.seed
    }

    pub fn new(seed: i32) -> (g: TerrainGenerator)
        ensures
            g.spec_seed() == seed,
    {
        TerrainGenerator { seed }
    }

    #[verifier::when_used_as_spec(spec_seed)]
    pub fn seed(&self) -> (s: i32)
        ensures
            s == self.spec_seed(),
    {
        self.seed
    }

    /// The block type at height `y` of a column that is `height` cells
    /// high: grass on top, one cell of dirt below it, stone further down.
    pub open spec fn band(y: int, height: int) -> BlockType {
        if y == height - 1 {
            BlockType::Grass
        } else if y > height - 3 {
            BlockType::Dirt
        } else {
            BlockType::Stone
        }
    }

    /// The cell with index `i` after generation: cells below the height of
    /// their column get the type of their band, the others stay as they
    /// were. The height of the column at `(x, z)` stands at `z * 16 + x`.
    pub open spec fn generated_cell(heights: Seq<i32>, before: Seq<Block>, i: int) -> Block {
        let x = i % 16;
        let y = (i / 16) % 256;
        let z = i / 4096;
        let height = heights[z * 16 + x] as int;
        if y < height {
            Block { voxel_type: Self::band(y, height) }
        } else {
            before[i]
        }
    }

    /// The cells of a chunk after generation, see
    /// [`TerrainGenerator::generated_cell`].
    pub open spec fn generated(heights: Seq<i32>, before: Seq<Block>) -> Seq<Block> {
        Seq::new(CHUNK_VOLUME as nat, |i: int| Self::generated_cell(heights, before, i))
    }

    /// Whether generation has reached cell `i` when it stands at height `y`
    /// of the column at `(x, z)`.
    spec fn reached(i: int, x: int, z: int, y: int) -> bool {
        let cx = i % 16;
        let cy = (i / 16) % 256;
        let cz = i / 4096;
        cx < x || (cx == x && (cz < z || (cz == z && cy < y)))
    }

    /// Fills `buffer` with terrain: in each column the cells below the
    /// column's height are set by band, see [`TerrainGenerator::generated`].
    /// No column may be higher than the chunk.
    pub fn generate(&self, heights: &Vec<i32>, buffer: &mut ChunkData)
        requires
            heights@.len() == CHUNK_COLUMNS,
            old(buffer)@.len() == CHUNK_VOLUME,
            forall|c: int| 0 <= c < CHUNK_COLUMNS ==> #[trigger] heights@[c] <= CHUNK_HEIGHT,
        ensures
            final(buffer)@ == Self::generated(heights@, old(buffer)@),
    {
        let ghost before = buffer@;
        let mut x: i32 = 0;
        while x < CHUNK_SIZE
            invariant
                0 <= x <= CHUNK_SIZE,
                heights@.len() == CHUNK_COLUMNS,
                buffer@.len() == CHUNK_VOLUME,
                before.len() == CHUNK_VOLUME,
                forall|c: int| 0 <= c < CHUNK_COLUMNS ==> #[trigger] heights@[c] <= CHUNK_HEIGHT,
                forall|i: int|
                    0 <= i < CHUNK_VOLUME ==> #[trigger] buffer@[i] == (if Self::reached(i, x as int, 0, 0) {
                        Self::generated_cell(heights@, before, i)
                    } else {
                        before[i]
                    }),
            decreases CHUNK_SIZE - x,
        {
            let mut z: i32 = 0;
            while z < CHUNK_SIZE
                invariant
                    0 <= x < CHUNK_SIZE,
                    0 <= z <= CHUNK_SIZE,
                    heights@.len() == CHUNK_COLUMNS,
                    buffer@.len() == CHUNK_VOLUME,
                    before.len() == CHUNK_VOLUME,
                    forall|c: int| 0 <= c < CHUNK_COLUMNS ==> #[trigger] heights@[c] <= CHUNK_HEIGHT,
                    forall|i: int|
                        0 <= i < CHUNK_VOLUME ==> #[trigger] buffer@[i] == (if Self::reached(
                            i,
                            x as int,
                            z as int,
                            0,
                        ) {
                            Self::generated_cell(heights@, before, i)
                        } else {
                            before[i]
                        }),
                decreases CHUNK_SIZE - z,
            {
                let height: i32 = heights[(z * CHUNK_SIZE + x) as usize];
                let mut y: i32 = 0;
                while y < height
                    invariant
                        0 <= x < CHUNK_SIZE,
                        0 <= z < CHUNK_SIZE,
                        0 <= y,
                        height <= CHUNK_HEIGHT,
                        height == heights@[z * 16 + x],
                        y <= height || y == 0,
                        heights@.len() == CHUNK_COLUMNS,
                        buffer@.len() == CHUNK_VOLUME,
                        before.len() == CHUNK_VOLUME,
                        forall|i: int|
                            0 <= i < CHUNK_VOLUME ==> #[trigger] buffer@[i] == (if Self::reached(
                                i,
                                x as int,
                                z as int,
                                y as int,
                            ) {
                                Self::generated_cell(heights@, before, i)
                            } else {
                                before[i]
                            }),
                    decreases height - y,
                {
                    let index = Chunk::get_index(&IVec3::new(x, y, z));
                    let voxel_type = if y == height - 1 {
                        BlockType::Grass
                    } else if y > height - 3 {
                        BlockType::Dirt
                    } else {
                        BlockType::Stone
                    };
                    let mut voxel = buffer[index];
                    voxel.set_type(voxel_type);
                    buffer.set(index, voxel);
                    proof {
                        assert(index % 16 == x && (index / 16) % 256 == y && index / 4096 == z);
                        assert forall|i: int| 0 <= i < CHUNK_VOLUME && Self::reached(
                            i,
                            x as int,
                            z as int,
                            y + 1,
                        ) && !Self::reached(i, x as int, z as int, y as int) implies i == index by {
                            assert(i == (i / 4096) * 4096 + ((i / 16) % 256) * 16 + i % 16);
                        }
                    }
                    y = y + 1;
                }
                proof {
                    assert forall|i: int| 0 <= i < CHUNK_VOLUME && Self::reached(
                        i,
                        x as int,
                        z + 1,
                        0,
                    ) && !Self::reached(i, x as int, z as int, y as int) implies Self::generated_cell(
                        heights@,
                        before,
                        i,
                    ) == before[i] by {}
                }
                z = z + 1;
            }
            x = x + 1;
        }
        assert(buffer@ =~= Self::generated(heights@, before));
    }
}

} // verus!

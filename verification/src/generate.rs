//! Chunk generation: the terrain stub. Outside a fixed range chunks are
//! all air; at the ground layer inside the range, every cell receives a
//! block drawn at random from a fixed candidate set.

use vstd::prelude::*;

use crate::blocks::{spec_find_block, BlocksHandler};
use crate::chunk::{Chunk, SIZE_P3};
use crate::math::IVec3;

verus! {

/// Noise generator of the world-generation context.
#[verifier::external_type_specification]
#[verifier::external_body]
pub struct ExFastNoiseLite(fastnoise_lite::FastNoiseLite);

/// Relies on fastnoise_lite::FastNoiseLite::with_seed: builds a noise
/// generator with the given seed. Nothing about the noise values is
/// assumed.
#[verifier::external_body]
fn noise_with_seed(seed: i32) -> fastnoise_lite::FastNoiseLite {
    fastnoise_lite::FastNoiseLite::with_seed(seed)
}

/// Relies on fastrand::usize: a random index below `n`, uniformly
/// drawn. It panics only on an empty range, which the precondition
/// excludes; nothing beyond the bound holds of any one outcome.
#[verifier::external_body]
fn random_index(n: usize) -> (r: usize)
    requires
        n > 0,
    ensures
        r < n,
{
    fastrand::usize(0..n)
}

/// World-generation context: the seeded noise source.
pub struct Context {
    pub noise: fastnoise_lite::FastNoiseLite,
}

impl Context {
    pub fn new(seed: i32) -> Context {
        Context { noise: noise_with_seed(seed) }
    }
}

/// Half-width of the generated world: chunks further than this on any
/// axis are all air.
pub const GENERATION_RANGE: i32 = 8;

/// The chunk position lies within the generated world.
pub open spec fn spec_in_generation_range(pos: IVec3) -> bool {
    &&& -GENERATION_RANGE <= pos.x <= GENERATION_RANGE
    &&& -GENERATION_RANGE <= pos.y <= GENERATION_RANGE
    &&& -GENERATION_RANGE <= pos.z <= GENERATION_RANGE
}

/// The block id is one of the candidates the ground layer draws from.
pub open spec fn spec_ground_candidate(blocks: BlocksHandler, v: u16) -> bool {
    ||| v == spec_find_block(blocks.values@, "air"@)
    ||| v == spec_find_block(blocks.values@, "dirt"@)
    ||| v == spec_find_block(blocks.values@, "grass"@)
    ||| v == spec_find_block(blocks.values@, "stone"@)
}

/// Chunk generation itself; the scheduling around it lives with the
/// runtime.
pub struct Generator;

impl Generator {
    /// Generates the chunk at `position`: all air outside the
    /// generation range and away from the ground layer; at the ground
    /// layer, every cell is one of the four candidate blocks, whatever
    /// the random draws were.
    pub fn generate(position: IVec3, blocks: &BlocksHandler) -> (c: Chunk)
        requires
            blocks.wf(),
        ensures
            c.wf(),
            c.position == position,
            !spec_in_generation_range(position) ==> forall|i: int|
                0 <= i < SIZE_P3 ==> c.spec_block(i) == 0,
            spec_in_generation_range(position) && position.y != 0 ==> forall|i: int|
                0 <= i < SIZE_P3 ==> c.spec_block(i) == 0,
            spec_in_generation_range(position) && position.y == 0 ==> forall|i: int|
                0 <= i < SIZE_P3 ==> spec_ground_candidate(*blocks, #[trigger] c.spec_block(i)),
    {
        let mut chunk = Chunk::new(position);
        let range = GENERATION_RANGE;
        if position.x > range || position.x < -range || position.y > range || position.y < -range
            || position.z > range || position.z < -range {
            return chunk;
        }
        if position.y == 0 {
            let mut i: usize = 0;
            while i < SIZE_P3
                invariant
                    blocks.wf(),
                    chunk.wf(),
                    chunk.position == position,
                    0 <= i <= SIZE_P3,
                    forall|j: int|
                        0 <= j < i ==> spec_ground_candidate(*blocks, #[trigger] chunk.spec_block(j)),
                decreases SIZE_P3 - i,
            {
                let pick = random_index(4);
                let name = match pick {
                    0 => "air",
                    1 => "dirt",
                    2 => "grass",
                    _ => "stone",
                };
                let id = blocks.find_block(name);
                chunk.set_block(i, id);
                i = i + 1;
            }
        }
        chunk
    }
}

} // verus!

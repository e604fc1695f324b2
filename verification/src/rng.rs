use vstd::prelude::*;

verus! {

/// Draw slot, within a cell's seed stream, of the per-cell choice value.
pub const SLOT_CHOICE: u64 = 0;

/// Draw slot of the large-tree variant pick.
pub const SLOT_TREE: u64 = 1;

/// Draw slot of the bones variant pick.
pub const SLOT_BONES: u64 = 2;

/// Draw slot of the house variant pick.
pub const SLOT_HOUSE: u64 = 3;

/// The value drawn by a generator freshly seeded with `seed` when asked
/// for a value below `bound`. Named, not stated: the generator's output
/// is a fixed function of its seed, but writing that function out here
/// would restate the generator itself.
pub uninterp spec fn draw_of(seed: u64, bound: int) -> usize;

/// The seed of one draw stream: stream `slot` of cell `cell` under the
/// run seed `seed`. Distinct (cell, slot) pairs get distinct low bits, so
/// the per-cell draws are independent streams of the one run seed.
pub open spec fn spec_stream_seed(seed: u64, cell: int, slot: int) -> u64 {
    seed ^ ((4 * cell + slot) as u64)
}

pub fn stream_seed(seed: u64, cell: u64, slot: u64) -> (r: u64)
    requires
        4 * cell + slot <= u64::MAX,
    ensures
        r == spec_stream_seed(seed, cell as int, slot as int),
{
    seed ^ (4 * cell + slot)
}

/// Relies on rand::rngs::StdRng (rand::SeedableRng::seed_from_u64 and
/// rand::Rng::gen_range): for the version built against, a freshly seeded
/// StdRng is a pure function of its seed — ChaCha12 with a fixed seed
/// expansion, no machine dependence — and gen_range(0..bound) returns a
/// value below bound (it panics only on an empty range, kept out here by
/// the precondition).
#[verifier::external_body]
pub(crate) fn draw_below(seed: u64, bound: usize) -> (r: usize)
    requires
        0 < bound,
    ensures
        r == draw_of(seed, bound as int),
        r < bound,
{
    let mut rng = <rand::rngs::StdRng as rand::SeedableRng>::seed_from_u64(seed);
    rand::Rng::gen_range(&mut rng, 0..bound)
}

} // verus!

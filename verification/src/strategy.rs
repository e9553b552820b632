use vstd::prelude::*;
use vstd::arithmetic::power2::pow2;

verus! {

/// How many samples one summing iteration takes from each reader: the
/// smallest power of two that is at least 100000.
pub const CHUNK_SIZE: usize = 131072usize;

/// `CHUNK_SIZE` is the smallest power of two not below 100000.
pub proof fn lemma_chunk_size_is_next_power_of_two()
    ensures
        CHUNK_SIZE == pow2(17),
        pow2(16) < 100000 <= CHUNK_SIZE,
{
    vstd::arithmetic::power2::lemma2_to64();
}

/// Sums one reader at a time, all the way through: every reader is read to its
/// end in a single iteration.
pub struct Strategy1;

/// Sums one sample at a time: each iteration takes one sample from every
/// reader and writes their sum.
pub struct Strategy2;

/// Sums one chunk at a time: each iteration takes up to `CHUNK_SIZE` samples
/// from every reader.
pub struct Strategy3;

/// Splits the readers into time slices processed in parallel (does nothing
/// yet).
pub struct Strategy4;

} // verus!

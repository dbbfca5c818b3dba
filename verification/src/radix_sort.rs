//! Sizing and scheduling arithmetic for the GPU radix sort.
//!
//! The sort proper runs on the GPU in fixed stages over key/value pairs.
//! What this module pins down is the arithmetic around it: how many blocks
//! each stage dispatches, how large the padded key buffer and the internal
//! histogram buffer must be, the initial contents of the state buffer, and
//! the exact stage sequence one sort records. The application allocates
//! GPU buffers of these sizes and replays the stage plan.

use vstd::prelude::*;
use vstd::arithmetic::div_mod::{
    lemma_div_multiples_vanish, lemma_fundamental_div_mod, lemma_mod_multiples_basic,
};
use crate::compute::driver::{ceil_div_u32, spec_ceil_div};

verus! {

/// Keys processed by one histogram workgroup: 256 invocations, 15 rows.
pub const HISTO_BLOCK_KVS: u32 = 3840;

/// Keys processed by one scatter workgroup: 256 invocations, 15 rows.
pub const SCATTER_BLOCK_KVS: u32 = 3840;

/// Bytes of one radix digit's histogram: 256 bins of four bytes.
pub const HISTOGRAM_BYTES: u32 = 1024;

/// Number of radix digit passes over 32-bit keys, one byte each.
pub const KEYVAL_PASSES: u32 = 4;

/// Largest key count the sizing arithmetic accepts: the padded key count
/// is the next multiple of one block's keys, and this is the last count
/// whose padding still fits in 32 bits.
pub const MAX_SORT_KEYS: u32 = 4294967040;

/// Contents of the sorter's GPU state buffer.
pub struct SorterState {
    pub num_keys: u32,
    pub padded_size: u32,
    pub even_pass: u32,
    pub odd_pass: u32,
    pub sort_failed: u32,
}

/// Scatter workgroups needed to cover `n` keys.
pub fn scatter_blocks_ru(n: u32) -> (r: u32)
    ensures
        r == spec_ceil_div(n as int, SCATTER_BLOCK_KVS as int),
{
    ceil_div_u32(n, SCATTER_BLOCK_KVS)
}

/// Histogram workgroups needed to cover the scatter-padded key count;
/// with equal block sizes this equals the scatter block count.
pub fn histo_blocks_ru(n: u32) -> (r: u32)
    requires
        n <= MAX_SORT_KEYS,
    ensures
        r == spec_ceil_div(n as int, HISTO_BLOCK_KVS as int),
{
    let s = scatter_blocks_ru(n);
    proof {
        lemma_fundamental_div_mod(n as int, 3840);
        assert(s <= 1118481);
    }
    let padded = s * SCATTER_BLOCK_KVS;
    let r = ceil_div_u32(padded, HISTO_BLOCK_KVS);
    proof {
        lemma_mod_multiples_basic(s as int, 3840);
        lemma_div_multiples_vanish(s as int, 3840);
    }
    r
}

/// Element count of the padded key buffer: `n` rounded up to a whole
/// number of histogram blocks — never smaller than `n`, and always a
/// multiple of the block size.
pub fn keys_buffer_size(n: u32) -> (r: u32)
    requires
        n <= MAX_SORT_KEYS,
    ensures
        r == HISTO_BLOCK_KVS * spec_ceil_div(n as int, HISTO_BLOCK_KVS as int),
        r >= n,
        r % HISTO_BLOCK_KVS == 0,
{
    let h = histo_blocks_ru(n);
    proof {
        lemma_fundamental_div_mod(n as int, 3840);
        assert(h <= 1118481);
    }
    let r = h * HISTO_BLOCK_KVS;
    proof {
        lemma_mod_multiples_basic(h as int, 3840);
    }
    r
}

/// Bytes of the internal histogram memory: one histogram per digit pass,
/// plus one per scatter block for partition prefixes.
pub fn internal_buffer_size(count: u32) -> (r: u32)
    requires
        count <= MAX_SORT_KEYS,
    ensures
        r == (KEYVAL_PASSES + spec_ceil_div(count as int, SCATTER_BLOCK_KVS as int))
            * HISTOGRAM_BYTES,
{
    let s = scatter_blocks_ru(count);
    proof {
        lemma_fundamental_div_mod(count as int, 3840);
        assert(s <= 1118481);
    }
    (KEYVAL_PASSES + s) * HISTOGRAM_BYTES
}

/// Bytes of one key buffer: four bytes per key per digit pass, over the
/// padded key count.
pub fn keys_bytes(count: u32) -> (r: u64)
    requires
        count <= MAX_SORT_KEYS,
    ensures
        r == 16 * (HISTO_BLOCK_KVS * spec_ceil_div(count as int, HISTO_BLOCK_KVS as int)),
{
    let k = keys_buffer_size(count);
    (k as u64) * 16
}

/// Bytes of one payload buffer: four bytes per key, unpadded.
pub fn payload_bytes(count: u32) -> (r: u64)
    ensures
        r == 4 * count,
{
    (count as u64) * 4
}

/// The state buffer contents a sort starts from.
pub fn initial_sorter_state(count: u32) -> (r: SorterState)
    requires
        count <= MAX_SORT_KEYS,
    ensures
        r.num_keys == count,
        r.padded_size == HISTO_BLOCK_KVS * spec_ceil_div(count as int, HISTO_BLOCK_KVS as int),
        r.even_pass == 0,
        r.odd_pass == 0,
        r.sort_failed == 0,
{
    SorterState {
        num_keys: count,
        padded_size: keys_buffer_size(count),
        even_pass: 0,
        odd_pass: 0,
        sort_failed: 0,
    }
}

/// One GPU stage of the radix sort.
#[derive(Clone, Copy, Debug, PartialEq, Eq, Structural)]
pub enum SortStage {
    /// Zero the histogram memory.
    ZeroHistograms,
    /// Count digit occurrences over all keys.
    CalculateHistogram,
    /// Prefix-sum each digit pass's histogram.
    PrefixSum,
    /// Scatter from the even to the odd buffer set.
    ScatterEven,
    /// Scatter from the odd back to the even buffer set.
    ScatterOdd,
}

/// The stage sequence one sort of `count` keys records, with each stage's
/// workgroup count: zero and count the histograms block by block, one
/// prefix sum per digit pass, then four alternating scatter passes — one
/// per key byte — so the sorted data ends in the even buffer set.
pub fn sort_dispatch_plan(count: u32) -> (r: Vec<(SortStage, u32)>)
    requires
        count <= MAX_SORT_KEYS,
    ensures
        r@.len() == 7,
        r@[0].0 == SortStage::ZeroHistograms,
        r@[1].0 == SortStage::CalculateHistogram,
        r@[2].0 == SortStage::PrefixSum,
        r@[3].0 == SortStage::ScatterEven,
        r@[4].0 == SortStage::ScatterOdd,
        r@[5].0 == SortStage::ScatterEven,
        r@[6].0 == SortStage::ScatterOdd,
        r@[0].1 == spec_ceil_div(count as int, HISTO_BLOCK_KVS as int),
        r@[1].1 == spec_ceil_div(count as int, HISTO_BLOCK_KVS as int),
        r@[2].1 == KEYVAL_PASSES,
        forall|i: int|
            3 <= i < 7 ==> r@[i].1 == spec_ceil_div(count as int, SCATTER_BLOCK_KVS as int),
{
    let hist_blocks = histo_blocks_ru(count);
    let scatter_blocks = scatter_blocks_ru(count);
    let mut r: Vec<(SortStage, u32)> = Vec::new();
    r.push((SortStage::ZeroHistograms, hist_blocks));
    r.push((SortStage::CalculateHistogram, hist_blocks));
    r.push((SortStage::PrefixSum, KEYVAL_PASSES));
    r.push((SortStage::ScatterEven, scatter_blocks));
    r.push((SortStage::ScatterOdd, scatter_blocks));
    r.push((SortStage::ScatterEven, scatter_blocks));
    r.push((SortStage::ScatterOdd, scatter_blocks));
    r
}

} // verus!

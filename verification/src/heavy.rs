//! The parallel map-and-sum utility: a fixed, deterministic, side-effect-free
//! scalar transform (absolute value, offset and reciprocal) is applied to
//! every element a given number of times, each element in its own parallel
//! task, and the per-element results are then summed in index order.

use vstd::prelude::*;
use rayon::iter::IntoParallelRefIterator;
use rayon::iter::ParallelIterator;

use crate::scalar::ZERO_BITS;
use crate::scalar::ONE_BITS;
use crate::scalar::add_bits;
use crate::scalar::div_bits;
use crate::scalar::abs_bits;
use crate::scalar::add32;
use crate::scalar::div32;
use crate::scalar::abs32;

verus! {

/// One round of the CPU-bound transform: `1.0 / (|x| + 1.0)` in binary32.
pub open spec fn heavy_step_bits(x: u32) -> u32 {
    div_bits(ONE_BITS, add_bits(abs_bits(x), ONE_BITS))
}

/// The transform applied `n` times in sequence to one element; zero
/// applications leave the element unchanged.
pub open spec fn heavy_chain_bits(x: u32, n: int) -> u32
    decreases n,
{
    if n <= 0 {
        x
    } else {
        heavy_step_bits(heavy_chain_bits(x, n - 1))
    }
}

/// The binary32 sum of the transformed first `i` elements, added in index
/// order starting from `0.0`.
pub open spec fn heavy_total(s: Seq<u32>, reps: int, i: int) -> u32
    decreases i,
{
    if i <= 0 {
        ZERO_BITS
    } else {
        add_bits(heavy_total(s, reps, i - 1), heavy_chain_bits(s[i - 1], reps))
    }
}

/// The binary32 sum of the first `i` elements themselves, added in index
/// order starting from `0.0`.
pub open spec fn sum_bits(s: Seq<u32>, i: int) -> u32
    decreases i,
{
    if i <= 0 {
        ZERO_BITS
    } else {
        add_bits(sum_bits(s, i - 1), s[i - 1])
    }
}

/// With zero repetitions the transform is the identity, so the whole run is
/// a plain sum of the input elements.
pub proof fn lemma_zero_reps_identity(s: Seq<u32>, i: int)
    ensures
        heavy_total(s, 0, i) == sum_bits(s, i),
    decreases (if i >= 0 { i } else { 0 }),
{
    if i > 0 {
        lemma_zero_reps_identity(s, i - 1);
    }
}

/// One round of the CPU-bound transform.
fn heavy_step(x: u32) -> (r: u32)
    ensures
        r == heavy_step_bits(x),
{
    let a = abs32(x);
    let d = add32(a, ONE_BITS);
    div32(ONE_BITS, d)
}

/// The transform applied `reps` times in sequence to one element.
fn heavy_chain(x: u32, reps: usize) -> (r: u32)
    ensures
        r == heavy_chain_bits(x, reps as int),
{
    let mut res = x;
    for t in 0..reps
        invariant
            res == heavy_chain_bits(x, t as int),
    {
        res = heavy_step(res);
    }
    res
}

/// Relies on rayon's parallel iterator over a slice: `map` with `collect`
/// keeps index order, and every element is produced by the verified
/// `heavy_chain`.
#[verifier::external_body]
fn par_heavy_map(data: &Vec<u32>, reps: usize) -> (r: Vec<u32>)
    ensures
        r@.len() == data@.len(),
        forall|i: int| 0 <= i < data@.len()
            ==> #[trigger] r@[i] == heavy_chain_bits(data@[i], reps as int),
{
    data.par_iter().map(|&v| heavy_chain(v, reps)).collect()
}

/// Applies the transform `iterations` times to every element, each element
/// in its own parallel task, then sums the results in index order; with zero
/// repetitions the result is exactly the sum of the inputs.
pub fn run_heavy_logic(data: &Vec<u32>, iterations: usize) -> (r: u32)
    ensures
        r == heavy_total(data@, iterations as int, data@.len() as int),
        iterations == 0 ==> r == sum_bits(data@, data@.len() as int),
{
    let mapped = par_heavy_map(data, iterations);
    let n = mapped.len();
    let mut sum: u32 = ZERO_BITS;
    for i in 0..n
        invariant
            n == mapped@.len(),
            n == data@.len(),
            forall|t: int| 0 <= t < n
                ==> #[trigger] mapped@[t] == heavy_chain_bits(data@[t], iterations as int),
            sum == heavy_total(data@, iterations as int, i as int),
    {
        sum = add32(sum, mapped[i]);
    }
    proof {
        lemma_zero_reps_identity(data@, data@.len() as int);
    }
    sum
}

} // verus!

//! In-place transforms and reductions over buffers of binary32 bit patterns.

use crate::float32::{
    add_bits, div_bits, f32_add, f32_div, f32_from_usize, f32_mul, f32_of_int, is_nan_bits,
    mul_bits, F32_ONE_BITS, F32_ZERO_BITS,
};
use vstd::assert_seqs_equal;
use vstd::prelude::*;

verus! {

/// Elementwise IEEE-754 product of every element of `s` with `f`.
pub open spec fn scale_seq(s: Seq<u32>, f: u32) -> Seq<u32> {
    s.map_values(|x: u32| mul_bits(x, f))
}

/// Multiplies every element of `buf` in place by `factor`. The length is
/// unchanged, element `i` becomes the IEEE-754 product of its old value and
/// `factor`, and a factor of one leaves every non-NaN element unchanged.
pub fn scale(buf: &mut Vec<u32>, factor: u32)
    ensures
        final(buf)@ == scale_seq(old(buf)@, factor),
        final(buf)@.len() == old(buf)@.len(),
        forall|i: int|
            0 <= i < old(buf)@.len() ==> final(buf)@[i] == mul_bits(old(buf)@[i], factor),
        factor == F32_ONE_BITS ==> forall|i: int|
            0 <= i < old(buf)@.len() && !is_nan_bits(old(buf)@[i]) ==> final(buf)@[i] == old(
                buf,
            )@[i],
{
    let n = buf.len();
    let mut i: usize = 0;
    while i < n
        invariant
            i <= n,
            n == old(buf)@.len(),
            buf@.len() == n,
            forall|j: int| i <= j < n ==> buf@[j] == old(buf)@[j],
            forall|j: int| 0 <= j < i ==> buf@[j] == mul_bits(old(buf)@[j], factor),
            factor == F32_ONE_BITS ==> forall|j: int|
                0 <= j < i && !is_nan_bits(old(buf)@[j]) ==> buf@[j] == old(buf)@[j],
        decreases n - i,
    {
        let v = f32_mul(buf[i], factor);
        buf[i] = v;
        i += 1;
    }
    proof {
        assert_seqs_equal!(buf@ == scale_seq(old(buf)@, factor));
    }
}

/// Elementwise IEEE-754 sum of every element of `s` with `d`.
pub open spec fn offset_seq(s: Seq<u32>, d: u32) -> Seq<u32> {
    s.map_values(|x: u32| add_bits(x, d))
}

/// Adds `delta` to every element of `buf` in place. The length is unchanged
/// and element `i` becomes the IEEE-754 sum of its old value and `delta`.
pub fn offset(buf: &mut Vec<u32>, delta: u32)
    ensures
        final(buf)@ == offset_seq(old(buf)@, delta),
        final(buf)@.len() == old(buf)@.len(),
        forall|i: int|
            0 <= i < old(buf)@.len() ==> final(buf)@[i] == add_bits(old(buf)@[i], delta),
{
    let n = buf.len();
    let mut i: usize = 0;
    while i < n
        invariant
            i <= n,
            n == old(buf)@.len(),
            buf@.len() == n,
            forall|j: int| i <= j < n ==> buf@[j] == old(buf)@[j],
            forall|j: int| 0 <= j < i ==> buf@[j] == add_bits(old(buf)@[j], delta),
        decreases n - i,
    {
        let v = f32_add(buf[i], delta);
        buf[i] = v;
        i += 1;
    }
    proof {
        assert_seqs_equal!(buf@ == offset_seq(old(buf)@, delta));
    }
}

/// Left fold of IEEE-754 addition over `s`, starting from `+0.0`: the sum
/// that the reductions compute, one addition per element in index order.
pub open spec fn sum_bits(s: Seq<u32>) -> u32
    decreases s.len(),
{
    if s.len() == 0 {
        F32_ZERO_BITS
    } else {
        add_bits(sum_bits(s.drop_last()), s.last())
    }
}

/// The arithmetic mean of `s`: its IEEE-754 sum divided by its length
/// converted to binary32.
pub open spec fn mean_bits(s: Seq<u32>) -> u32 {
    div_bits(sum_bits(s), f32_of_int(s.len() as int))
}

/// Returns the arithmetic mean of `buf`: the IEEE-754 sum of its elements
/// divided by its length. An empty buffer yields a NaN, never a fault.
pub fn mean(buf: &Vec<u32>) -> (r: u32)
    ensures
        r == mean_bits(buf@),
        buf@.len() == 0 ==> is_nan_bits(r),
{
    let n = buf.len();
    let mut sum: u32 = F32_ZERO_BITS;
    let mut i: usize = 0;
    while i < n
        invariant
            i <= n,
            n == buf@.len(),
            sum == sum_bits(buf@.take(i as int)),
        decreases n - i,
    {
        proof {
            assert(buf@.take(i + 1).drop_last() =~= buf@.take(i as int));
            assert(buf@.take(i + 1).last() == buf@[i as int]);
        }
        sum = f32_add(sum, buf[i]);
        i += 1;
    }
    proof {
        assert(buf@.take(n as int) =~= buf@);
    }
    let len_bits = f32_from_usize(n);
    f32_div(sum, len_bits)
}

/// Fixed additive constant of the composed pipeline: the bit pattern of
/// `1.98765432f32`.
pub const PIPELINE_DELTA_BITS: u32 = 0x3FFE_6B75;

/// One step of the composed pipeline: multiply by `f`, then add the fixed
/// pipeline constant, both in IEEE-754 binary32 arithmetic.
pub open spec fn step_bits(x: u32, f: u32) -> u32 {
    add_bits(mul_bits(x, f), PIPELINE_DELTA_BITS)
}

/// Elementwise application of the pipeline step to `s`.
pub open spec fn transform_seq(s: Seq<u32>, f: u32) -> Seq<u32> {
    s.map_values(|x: u32| step_bits(x, f))
}

/// Scales `buf` by `factor`, adds the fixed pipeline constant to every
/// element, and returns the arithmetic mean of the transformed buffer. The
/// buffer keeps its length and holds the transformed elements afterwards; an
/// empty buffer is left empty and yields a NaN mean.
pub fn composed_func(buf: &mut Vec<u32>, factor: u32) -> (r: u32)
    ensures
        final(buf)@ == transform_seq(old(buf)@, factor),
        final(buf)@.len() == old(buf)@.len(),
        r == mean_bits(transform_seq(old(buf)@, factor)),
        old(buf)@.len() == 0 ==> is_nan_bits(r),
{
    scale(buf, factor);
    offset(buf, PIPELINE_DELTA_BITS);
    proof {
        assert_seqs_equal!(buf@ == transform_seq(old(buf)@, factor));
    }
    mean(buf)
}

/// The fused single-pass sum: the left IEEE-754 fold of the pipeline step
/// over `s`, starting from `+0.0`.
pub open spec fn fused_sum_bits(s: Seq<u32>, f: u32) -> u32
    decreases s.len(),
{
    if s.len() == 0 {
        F32_ZERO_BITS
    } else {
        add_bits(fused_sum_bits(s.drop_last(), f), step_bits(s.last(), f))
    }
}

/// Law: summing the transformed sequence element by element and folding the
/// pipeline step in one fused pass perform the same IEEE-754 additions in the
/// same order, so the two sums are exactly equal.
pub proof fn lemma_fused_sum_matches_staged(s: Seq<u32>, f: u32)
    ensures
        fused_sum_bits(s, f) == sum_bits(transform_seq(s, f)),
    decreases s.len(),
{
    if s.len() > 0 {
        lemma_fused_sum_matches_staged(s.drop_last(), f);
        assert(transform_seq(s, f).drop_last() =~= transform_seq(s.drop_last(), f));
    }
}

/// Law: for every buffer and factor, the staged pipeline (scale, offset by
/// the fixed constant, mean) and the fused non-mutating single pass return
/// exactly the same value.
pub proof fn lemma_composed_matches_inlined(s: Seq<u32>, f: u32)
    ensures
        mean_bits(transform_seq(s, f)) == div_bits(
            fused_sum_bits(s, f),
            f32_of_int(s.len() as int),
        ),
{
    lemma_fused_sum_matches_staged(s, f);
    assert(transform_seq(s, f).len() == s.len());
}

/// Computes, without mutating `buf`, the mean of the pipeline-transformed
/// elements in one fused pass: exactly the value `composed_func` returns on a
/// buffer with the same contents. An empty buffer yields a NaN.
pub fn inlined_func(buf: &Vec<u32>, factor: u32) -> (r: u32)
    ensures
        r == div_bits(fused_sum_bits(buf@, factor), f32_of_int(buf@.len() as int)),
        r == mean_bits(transform_seq(buf@, factor)),
        buf@.len() == 0 ==> is_nan_bits(r),
{
    let n = buf.len();
    let mut acc: u32 = F32_ZERO_BITS;
    let mut i: usize = 0;
    while i < n
        invariant
            i <= n,
            n == buf@.len(),
            acc == fused_sum_bits(buf@.take(i as int), factor),
        decreases n - i,
    {
        proof {
            assert(buf@.take(i + 1).drop_last() =~= buf@.take(i as int));
            assert(buf@.take(i + 1).last() == buf@[i as int]);
        }
        let scaled = f32_mul(buf[i], factor);
        let stepped = f32_add(scaled, PIPELINE_DELTA_BITS);
        acc = f32_add(acc, stepped);
        i += 1;
    }
    proof {
        assert(buf@.take(n as int) =~= buf@);
        lemma_composed_matches_inlined(buf@, factor);
    }
    let len_bits = f32_from_usize(n);
    f32_div(acc, len_bits)
}

} // verus!

//! Linear-interpolation resampling of fixed-point sample blocks.
//!
//! The conversion ratio is `target_rate / source_rate`. When the two rates
//! are within 1% of each other the block is returned unchanged, which avoids
//! needless drift in the common matched-rate case. Otherwise the output has
//! exactly `floor(len * target_rate / source_rate)` samples and output index
//! `i` is read at source position `i * source_rate / target_rate`, linearly
//! interpolating between the two nearest source samples and clamping past
//! the end of the input. This is a cheap O(n) approximation, not a
//! band-limited resampler; it is lossy at large rate ratios, which is
//! acceptable for speech at a fixed low target rate.

use vstd::prelude::*;
use vstd::arithmetic::div_mod::{
    lemma_fundamental_div_mod, lemma_fundamental_div_mod_converse, lemma_div_is_ordered,
    lemma_div_pos_is_pos, lemma_mod_division_less_than_divisor,
};
use vstd::arithmetic::div_mod::lemma_div_of0;
use vstd::arithmetic::mul::{lemma_mul_inequality, lemma_mul_nonnegative, lemma_mul_upper_bound};

verus! {

/// Whether the two rates are within the 1% identity band:
/// `|target/source - 1| < 0.01`, stated over integers.
pub open spec fn rates_matched(target: int, source: int) -> bool {
    if target >= source {
        100 * (target - source) < source
    } else {
        100 * (source - target) < source
    }
}

/// Number of output samples produced outside the identity band.
pub open spec fn resampled_len(len: int, target: int, source: int) -> int {
    (len * target) / source
}

/// Scaled interpolation step `delta * rem / target`, truncated toward zero.
pub open spec fn scaled_delta(delta: int, rem: int, target: int) -> int {
    if delta >= 0 {
        (delta * rem) / target
    } else {
        -(((-delta) * rem) / target)
    }
}

/// Value of output sample `i`: the linear interpolation of the two source
/// samples nearest position `i * source / target`, the second index clamped
/// to the last sample.
pub open spec fn interp_value(xs: Seq<i32>, target: int, source: int, i: int) -> int {
    let num = i * source;
    let idx0 = num / target;
    let rem = num % target;
    let idx1 = if idx0 + 1 < xs.len() {
        idx0 + 1
    } else {
        xs.len() - 1
    };
    let s0 = xs[idx0] as int;
    let s1 = xs[idx1] as int;
    s0 + scaled_delta(s1 - s0, rem, target)
}

/// The whole resampled block: the input unchanged inside the identity
/// band, the interpolated samples outside it.
pub open spec fn linear_resampled(xs: Seq<i32>, target: int, source: int) -> Seq<i32> {
    if rates_matched(target, source) {
        xs
    } else {
        Seq::new(
            resampled_len(xs.len() as int, target, source) as nat,
            |i: int| interp_value(xs, target, source, i) as i32,
        )
    }
}

/// Every output index reads an in-bounds source index.
proof fn lemma_src_index_in_bounds(len: int, target: int, source: int, i: int)
    requires
        source >= 1,
        target >= 1,
        0 <= i < resampled_len(len, target, source),
    ensures
        0 <= (i * source) / target < len,
{
    let ol = (len * target) / source;
    lemma_mul_nonnegative(i, source);
    lemma_div_pos_is_pos(i * source, target);
    lemma_fundamental_div_mod(len * target, source);
    lemma_mod_division_less_than_divisor(len * target, source);
    assert(ol * source <= len * target) by (nonlinear_arith)
        requires
            source >= 1,
            len * target == source * ol + (len * target) % source,
            (len * target) % source >= 0,
    ;
    lemma_mul_inequality(i + 1, ol, source);
    assert(i * source <= len * target - source) by (nonlinear_arith)
        requires
            (i + 1) * source <= ol * source,
            ol * source <= len * target,
            source >= 1,
    ;
    lemma_div_is_ordered(i * source, len * target - source, target);
    lemma_div_is_ordered(len * target - source, len * target - 1, target);
    assert(len * target - 1 == (len - 1) * target + (target - 1)) by (nonlinear_arith);
    lemma_fundamental_div_mod_converse(len * target - 1, target, len - 1, target - 1);
}

/// The interpolation step never exceeds the magnitude of the delta.
proof fn lemma_scaled_delta_bound(mag: int, rem: int, target: int)
    requires
        target >= 1,
        0 <= rem < target,
        mag >= 0,
    ensures
        0 <= (mag * rem) / target <= mag,
{
    lemma_mul_nonnegative(mag, rem);
    lemma_div_pos_is_pos(mag * rem, target);
    assert((mag * rem) / target <= mag) by (nonlinear_arith)
        requires
            target >= 1,
            0 <= rem < target,
            mag >= 0,
    ;
}

/// Interpolated values lie between their two source samples, so they fit
/// the sample range.
pub proof fn lemma_interp_value_range(xs: Seq<i32>, target: int, source: int, i: int)
    requires
        target >= 1,
        source >= 1,
        0 <= i < resampled_len(xs.len() as int, target, source),
    ensures
        i32::MIN <= interp_value(xs, target, source, i) <= i32::MAX,
{
    lemma_src_index_in_bounds(xs.len() as int, target, source, i);
    lemma_mod_division_less_than_divisor(i * source, target);
    let num = i * source;
    let rem = num % target;
    let idx0 = num / target;
    let idx1 = if idx0 + 1 < xs.len() {
        idx0 + 1
    } else {
        xs.len() - 1
    };
    let s0 = xs[idx0] as int;
    let s1 = xs[idx1] as int;
    if s1 - s0 >= 0 {
        lemma_scaled_delta_bound(s1 - s0, rem, target);
    } else {
        lemma_scaled_delta_bound(s0 - s1, rem, target);
    }
}

/// Resample a mono block from `source_rate` to `target_rate` by linear
/// interpolation. Within the 1% identity band the input is returned
/// unchanged; otherwise the output length is exactly
/// `floor(len * target_rate / source_rate)` and each sample is the
/// interpolated value at its source position.
pub fn resample_linear(samples: &Vec<i32>, target_rate: u32, source_rate: u32) -> (out: Vec<i32>)
    requires
        source_rate >= 1,
        resampled_len(samples@.len() as int, target_rate as int, source_rate as int)
            <= usize::MAX,
    ensures
        out@ == linear_resampled(samples@, target_rate as int, source_rate as int),
        rates_matched(target_rate as int, source_rate as int) ==> out@ == samples@,
        !rates_matched(target_rate as int, source_rate as int) ==> {
            &&& out@.len()
                == resampled_len(samples@.len() as int, target_rate as int, source_rate as int)
            &&& forall|i: int| 0 <= i < out@.len()
                ==> out@[i] == interp_value(samples@, target_rate as int, source_rate as int, i)
        },
{
    let t64: u64 = target_rate as u64;
    let s64: u64 = source_rate as u64;
    let within = if t64 >= s64 {
        100 * (t64 - s64) < s64
    } else {
        100 * (s64 - t64) < s64
    };
    assert(within == rates_matched(target_rate as int, source_rate as int));
    if within {
        return crate::sample::copy_block(samples);
    }
    if target_rate == 0 {
        proof {
            lemma_div_of0(source_rate as int);
        }
        assert(samples@.len() as int * 0 == 0) by (nonlinear_arith);
        assert(resampled_len(samples@.len() as int, 0, source_rate as int) == 0);
        let empty_out: Vec<i32> = Vec::new();
        assert(empty_out@ =~= linear_resampled(samples@, target_rate as int, source_rate as int));
        return empty_out;
    }

    let len = samples.len();
    proof {
        lemma_mul_upper_bound(len as int, usize::MAX as int, t64 as int, u32::MAX as int);
    }
    let ol128: u128 = ((len as u128) * (t64 as u128)) / (s64 as u128);
    assert(ol128 == resampled_len(len as int, t64 as int, s64 as int));
    let ol: usize = ol128 as usize;

    let mut out: Vec<i32> = Vec::new();
    let mut i: usize = 0;
    while i < ol
        invariant
            t64 == target_rate as int,
            s64 == source_rate as int,
            t64 >= 1,
            s64 >= 1,
            len == samples@.len(),
            ol == resampled_len(len as int, t64 as int, s64 as int),
            i <= ol,
            out@.len() == i,
            forall|j: int| 0 <= j < i
                ==> out@[j] == interp_value(samples@, t64 as int, s64 as int, j),
        decreases ol - i,
    {
        proof {
            lemma_src_index_in_bounds(len as int, t64 as int, s64 as int, i as int);
            lemma_mul_upper_bound(i as int, usize::MAX as int, s64 as int, u32::MAX as int);
        }
        let num: u128 = (i as u128) * (s64 as u128);
        let idx0_128: u128 = num / (t64 as u128);
        let rem128: u128 = num % (t64 as u128);
        let idx0: usize = idx0_128 as usize;
        assert(idx0 == (i as int * s64 as int) / (t64 as int));
        assert(rem128 == (i as int * s64 as int) % (t64 as int));
        proof {
            lemma_mod_division_less_than_divisor(i as int * s64 as int, t64 as int);
        }
        let idx1: usize = if idx0 + 1 < len {
            idx0 + 1
        } else {
            len - 1
        };
        let s0 = samples[idx0];
        let s1 = samples[idx1];
        let d: i64 = s1 as i64 - s0 as i64;
        let dneg = d < 0;
        let dmag: u64 = if dneg {
            (-d) as u64
        } else {
            d as u64
        };
        proof {
            lemma_mul_upper_bound(dmag as int, u64::MAX as int, rem128 as int, u32::MAX as int);
        }
        let scaled128: u128 = ((dmag as u128) * rem128) / (t64 as u128);
        proof {
            lemma_scaled_delta_bound(dmag as int, rem128 as int, t64 as int);
        }
        let scaled: u64 = scaled128 as u64;
        let v: i64 = if dneg {
            s0 as i64 - scaled as i64
        } else {
            s0 as i64 + scaled as i64
        };
        assert(v == interp_value(samples@, t64 as int, s64 as int, i as int));
        assert(i32::MIN <= v <= i32::MAX);
        out.push(v as i32);
        i = i + 1;
    }
    proof {
        assert forall|j: int| 0 <= j < out@.len() implies out@[j] == linear_resampled(
            samples@,
            t64 as int,
            s64 as int,
        )[j] by {
            lemma_interp_value_range(samples@, t64 as int, s64 as int, j);
        }
        assert(out@ =~= linear_resampled(samples@, t64 as int, s64 as int));
    }
    out
}

} // verus!

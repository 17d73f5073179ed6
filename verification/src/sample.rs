//! Fixed-point audio samples and 16-bit quantization.
//!
//! A sample is an `i32` measured in units of 1/32768 of full scale, so the
//! value 32768 stands for amplitude 1.0 and -32768 for -1.0. Values outside
//! that range are legal inputs (a hot signal can clip); the quantizer clamps
//! them to full scale before scaling to the 16-bit range of the sink, so a
//! clipped input saturates instead of wrapping around.

use vstd::prelude::*;

verus! {

/// Number of fixed-point units in one full-scale amplitude (1.0).
pub const SAMPLE_UNIT: i32 = 32768;

/// Largest value a quantized 16-bit sample can take.
pub const QUANT_MAX: i16 = 32767;

/// Magnitude of `v`, capped at full scale.
pub open spec fn clamped_magnitude(v: int) -> int {
    let m = if v >= 0 { v } else { -v };
    if m > 32768 {
        32768
    } else {
        m
    }
}

/// The 16-bit value a fixed-point sample quantizes to: clamp to full scale,
/// then scale by 32767/32768, truncating toward zero.
pub open spec fn quantized(v: int) -> int {
    let q = (clamped_magnitude(v) * 32767) / 32768;
    if v >= 0 {
        q
    } else {
        -q
    }
}

/// Quantization never leaves the 16-bit range, and saturates at full scale.
pub proof fn lemma_quantized_bounds(v: int)
    ensures
        -32767 <= quantized(v) <= 32767,
        v >= 32768 ==> quantized(v) == 32767,
        v <= -32768 ==> quantized(v) == -32767,
{
    assert(0 <= clamped_magnitude(v) <= 32768);
    assert(clamped_magnitude(v) * 32767 <= 32768 * 32767) by (nonlinear_arith)
        requires 0 <= clamped_magnitude(v) <= 32768;
    assert(0 <= (clamped_magnitude(v) * 32767) / 32768 <= 32767);
}

/// Clamp a fixed-point sample to full scale and quantize it to 16 bits.
pub fn quantize(v: i32) -> (q: i16)
    ensures
        q == quantized(v as int),
{
    proof {
        lemma_quantized_bounds(v as int);
    }
    let neg = v < 0;
    let mag: u64 = if neg {
        (-(v as i64)) as u64
    } else {
        v as u64
    };
    let m: u64 = if mag > 32768 {
        32768
    } else {
        mag
    };
    assert(m == clamped_magnitude(v as int));
    let scaled: u64 = (m * 32767) / 32768;
    assert(scaled <= 32767);
    let q16: i16 = scaled as i16;
    if neg {
        -q16
    } else {
        q16
    }
}

/// Quantize a whole block of fixed-point samples.
pub fn quantize_block(samples: &Vec<i32>) -> (out: Vec<i16>)
    ensures
        out@.len() == samples@.len(),
        forall|i: int| 0 <= i < out@.len() ==> out@[i] == quantized(samples@[i] as int),
{
    let mut out: Vec<i16> = Vec::new();
    let mut k: usize = 0;
    while k < samples.len()
        invariant
            k <= samples@.len(),
            out@.len() == k,
            forall|i: int| 0 <= i < k ==> out@[i] == quantized(samples@[i] as int),
        decreases samples@.len() - k,
    {
        let q = quantize(samples[k]);
        out.push(q);
        k = k + 1;
    }
    out
}

/// Average of a channel pair, truncated toward zero.
pub open spec fn averaged(a: int, b: int) -> int {
    let s = a + b;
    if s >= 0 {
        s / 2
    } else {
        -((-s) / 2)
    }
}

/// An average of two samples stays in sample range.
pub proof fn lemma_averaged_range(a: int, b: int)
    requires
        i32::MIN <= a <= i32::MAX,
        i32::MIN <= b <= i32::MAX,
    ensures
        i32::MIN <= averaged(a, b) <= i32::MAX,
{
    let s = a + b;
    if s >= 0 {
        assert(0 <= s / 2 <= i32::MAX) by (nonlinear_arith)
            requires 0 <= s <= 2 * (i32::MAX as int);
    } else {
        assert(0 <= (-s) / 2 <= -(i32::MIN as int)) by (nonlinear_arith)
            requires 0 < -s <= 2 * (-(i32::MIN as int));
    }
}

/// The mono signal obtained by averaging consecutive channel pairs; a
/// trailing unpaired sample is dropped.
pub open spec fn downmixed(data: Seq<i32>) -> Seq<i32> {
    Seq::new(data.len() / 2, |i: int| averaged(data[2 * i] as int, data[2 * i + 1] as int) as i32)
}

/// Average one channel pair.
pub fn average_pair(a: i32, b: i32) -> (m: i32)
    ensures
        m == averaged(a as int, b as int),
{
    let s: i64 = a as i64 + b as i64;
    if s >= 0 {
        (((s as u64) / 2) as i64) as i32
    } else {
        let t: u64 = ((-s) as u64) / 2;
        (-(t as i64)) as i32
    }
}

/// Down-mix an interleaved two-channel block to mono by averaging each pair.
pub fn downmix_stereo(data: &Vec<i32>) -> (mono: Vec<i32>)
    ensures
        mono@ == downmixed(data@),
{
    let mut mono: Vec<i32> = Vec::new();
    let mut k: usize = 0;
    while k + 1 < data.len()
        invariant
            k % 2 == 0,
            k <= data@.len(),
            mono@.len() == k / 2,
            k / 2 <= data@.len() / 2,
            forall|i: int| 0 <= i < mono@.len() ==> mono@[i] == downmixed(data@)[i],
        decreases data@.len() - k,
    {
        let m = average_pair(data[k], data[k + 1]);
        proof {
            lemma_averaged_range(data@[k as int] as int, data@[k as int + 1] as int);
        }
        mono.push(m);
        k = k + 2;
    }
    assert(mono@ =~= downmixed(data@));
    mono
}

/// Copy a block of samples.
pub fn copy_block(samples: &Vec<i32>) -> (out: Vec<i32>)
    ensures
        out@ == samples@,
{
    let mut out: Vec<i32> = Vec::new();
    let mut k: usize = 0;
    while k < samples.len()
        invariant
            k <= samples@.len(),
            out@ == samples@.take(k as int),
        decreases samples@.len() - k,
    {
        out.push(samples[k]);
        assert(out@ =~= samples@.take(k + 1));
        k = k + 1;
    }
    assert(samples@.take(samples@.len() as int) =~= samples@);
    out
}

/// Whole seconds of audio represented by a sample count at a given rate.
pub fn duration_secs(total_samples: u64, sample_rate: u32) -> (secs: u64)
    requires
        sample_rate > 0,
    ensures
        secs == total_samples as int / sample_rate as int,
{
    total_samples / (sample_rate as u64)
}

} // verus!

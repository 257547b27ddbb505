//! Weight derivation from the assembled artifact.
//!
//! Named weight tensors are carved out of fixed regions of the artifact: a
//! region's bytes are read in aligned four-byte groups, each group decoded
//! as a little-endian IEEE-754 single-precision number and converted to a
//! fixed-point tensor element, keeping only finite values of usable
//! magnitude. A region that yields fewer values than its tensor needs is
//! padded by cycling the extracted values; one that yields fewer than a
//! quarter of them fails with [`CoreError::InsufficientWeights`]. The
//! derivation is a pure function of the artifact bytes.

use vstd::prelude::*;

use crate::errors::{CoreError, WeightSection};
use vstd::arithmetic::div_mod::{lemma_basic_div, lemma_div_pos_is_pos, lemma_fundamental_div_mod};
use vstd::arithmetic::power2::{lemma2_to64, lemma_pow2_adds, lemma_pow2_pos, pow2};
use vstd::slice::slice_subrange;

verus! {

/// Upper magnitude bound on a usable weight: five, in fixed point.
pub const WEIGHT_LIMIT: i64 = 5 * 65536;

/// Elements of the feature-extraction weight tensor.
pub const CONV_WEIGHT_COUNT: usize = 1000;

/// Elements of the classification weight tensor.
pub const CLASSIFIER_WEIGHT_COUNT: usize = 3000;

/// Fixed-point value of the IEEE-754 single-precision number stored in four
/// little-endian bytes, when it is a usable weight: finite, and of a
/// magnitude that rounds to a non-zero fixed-point value below
/// [`WEIGHT_LIMIT`]. Exponent field `e` and mantissa `m` denote the number
/// `(-1)^sign * 2^(e - 127) * (1 + m / 2^23)`; its fixed-point image is
/// `(2^23 + m) / 2^(134 - e)`, rounded down.
pub open spec fn spec_decode_weight(b0: u8, b1: u8, b2: u8, b3: u8) -> Option<i64> {
    let e = (b3 as int % 128) * 2 + b2 as int / 128;
    let sign = b3 as int / 128;
    let m = (b2 as int % 128) * 65536 + b1 as int * 256 + b0 as int;
    if e == 0 || e >= 130 {
        None
    } else {
        let v = (8388608 + m) / pow2((134 - e) as nat) as int;
        if v == 0 || v >= WEIGHT_LIMIT as int {
            None
        } else if sign == 1 {
            Some((-v) as i64)
        } else {
            Some(v as i64)
        }
    }
}

/// Usable weights decoded from the aligned four-byte groups of `data`, in
/// order; a trailing group of fewer than four bytes is ignored.
pub open spec fn spec_extract_weights(data: Seq<u8>) -> Seq<i64>
    decreases data.len(),
{
    if data.len() < 4 {
        Seq::empty()
    } else {
        let rest = spec_extract_weights(data.skip(4));
        match spec_decode_weight(data[0], data[1], data[2], data[3]) {
            Some(w) => seq![w] + rest,
            None => rest,
        }
    }
}

/// `count` elements cycled out of a non-empty extraction: truncation when
/// enough values were extracted, deterministic padding otherwise.
pub open spec fn spec_fit_weights(ws: Seq<i64>, count: nat) -> Seq<i64>
    recommends
        ws.len() > 0,
{
    Seq::new(count, |i: int| ws[i % (ws.len() as int)])
}

/// Byte range `[lo, hi)` of the artifact feeding a weight section: the
/// second and third tenths feed feature extraction, the last three tenths
/// feed classification.
pub open spec fn spec_section_bounds(len: nat, section: WeightSection) -> (int, int) {
    let tenth = len as int / 10;
    match section {
        WeightSection::FeatureExtraction => (tenth, 3 * tenth),
        WeightSection::Classification => (7 * tenth, len as int),
    }
}

/// Elements required for a section's weight tensor.
pub open spec fn spec_section_count(section: WeightSection) -> nat {
    match section {
        WeightSection::FeatureExtraction => CONV_WEIGHT_COUNT as nat,
        WeightSection::Classification => CLASSIFIER_WEIGHT_COUNT as nat,
    }
}

/// The weight tensor a section of the artifact derives to, when the section
/// yields at least a quarter of the required values.
pub open spec fn spec_derive_section(data: Seq<u8>, section: WeightSection) -> Option<Seq<i64>> {
    let (lo, hi) = spec_section_bounds(data.len(), section);
    let ws = spec_extract_weights(data.subrange(lo, hi));
    if ws.len() < spec_section_count(section) / 4 {
        None
    } else {
        Some(spec_fit_weights(ws, spec_section_count(section)))
    }
}

/// Decodes one aligned four-byte group as a fixed-point weight.
pub fn decode_weight(b0: u8, b1: u8, b2: u8, b3: u8) -> (r: Option<i64>)
    ensures
        r == spec_decode_weight(b0, b1, b2, b3),
{
    let e: u32 = ((b3 as u32) % 128) * 2 + (b2 as u32) / 128;
    if e == 0 || e >= 130 {
        return None;
    }
    let m: u64 = ((b2 as u64) % 128) * 65536 + (b1 as u64) * 256 + (b0 as u64);
    let mag: u64 = 8388608 + m;
    let shift: u32 = 134 - e;
    let mut v: u64 = mag;
    if shift >= 24 {
        proof {
            lemma_pow2_adds(24, (shift - 24) as nat);
            lemma_pow2_pos((shift - 24) as nat);
            lemma2_to64();
            assert(pow2(24) * pow2((shift - 24) as nat) >= pow2(24) * 1) by (nonlinear_arith)
                requires
                    pow2((shift - 24) as nat) >= 1,
            ;
            lemma_basic_div(mag as int, pow2(shift as nat) as int);
        }
        v = 0;
    } else {
        let mut i: u32 = 0;
        proof {
            lemma2_to64();
        }
        while i < shift
            invariant
                i <= shift < 24,
                mag < 16777216,
                v == mag as int / pow2(i as nat) as int,
            decreases shift - i,
        {
            proof {
                lemma_pow2_pos(i as nat);
                lemma_pow2_pos((i + 1) as nat);
                lemma_div_pos_is_pos(mag as int, pow2(i as nat) as int);
                vstd::arithmetic::div_mod::lemma_div_denominator(
                    mag as int,
                    pow2(i as nat) as int,
                    2,
                );
                assert(pow2((i + 1) as nat) == pow2(i as nat) * 2) by {
                    lemma_pow2_adds(i as nat, 1);
                    lemma2_to64();
                }
            }
            v = v / 2;
            i = i + 1;
        }
    }
    if v == 0 || v >= WEIGHT_LIMIT as u64 {
        return None;
    }
    if b3 >= 128 {
        Some(-(v as i64))
    } else {
        Some(v as i64)
    }
}

/// Decodes every aligned four-byte group of `data`, keeping usable weights
/// in order.
#[verifier::loop_isolation(false)]
pub fn extract_weights(data: &[u8]) -> (r: Vec<i64>)
    ensures
        r@ == spec_extract_weights(data@),
{
    let mut out: Vec<i64> = Vec::new();
    let mut i: usize = 0;
    proof {
        assert(data@.skip(0) =~= data@);
    }
    while i < data.len() && data.len() - i >= 4
        invariant
            i <= data@.len(),
            spec_extract_weights(data@) == out@ + spec_extract_weights(data@.skip(i as int)),
        decreases data@.len() - i,
    {
        proof {
            assert(data@.skip(i as int).skip(4) =~= data@.skip(i + 4));
            assert(data@.skip(i as int)[0] == data@[i as int]);
            assert(data@.skip(i as int)[1] == data@[i as int + 1]);
            assert(data@.skip(i as int)[2] == data@[i as int + 2]);
            assert(data@.skip(i as int)[3] == data@[i as int + 3]);
        }
        let w = decode_weight(data[i], data[i + 1], data[i + 2], data[i + 3]);
        match w {
            Some(x) => {
                out.push(x);
                proof {
                    assert(spec_extract_weights(data@) == out@ + spec_extract_weights(
                        data@.skip(i + 4),
                    ));
                }
            },
            None => {},
        }
        i = i + 4;
    }
    proof {
        assert(spec_extract_weights(data@.skip(i as int)) =~= Seq::<i64>::empty());
        assert(out@ =~= out@ + Seq::<i64>::empty());
    }
    out
}

/// Cycles a non-empty extraction out to `count` elements.
pub fn fit_weights(ws: &Vec<i64>, count: usize) -> (r: Vec<i64>)
    requires
        ws@.len() > 0,
    ensures
        r@ == spec_fit_weights(ws@, count as nat),
{
    let mut out: Vec<i64> = Vec::new();
    let mut i: usize = 0;
    while i < count
        invariant
            i <= count,
            ws@.len() > 0,
            out@.len() == i,
            forall|j: int| 0 <= j < i ==> out@[j] == spec_fit_weights(ws@, count as nat)[j],
        decreases count - i,
    {
        out.push(ws[i % ws.len()]);
        i = i + 1;
    }
    proof {
        assert(out@ =~= spec_fit_weights(ws@, count as nat));
    }
    out
}

/// Derives one section's weight tensor from the artifact bytes; fails with
/// [`CoreError::InsufficientWeights`] when the section yields fewer than a
/// quarter of the required values.
pub fn derive_section_weights(data: &[u8], section: WeightSection) -> (r: Result<
    Vec<i64>,
    CoreError,
>)
    ensures
        r is Ok <==> spec_derive_section(data@, section) is Some,
        r matches Ok(v) ==> Some(v@) == spec_derive_section(data@, section),
        r matches Err(e) ==> e == CoreError::InsufficientWeights(section),
{
    let len = data.len();
    let tenth = len / 10;
    proof {
        lemma_fundamental_div_mod(len as int, 10);
    }
    let (lo, hi): (usize, usize) = match section {
        WeightSection::FeatureExtraction => (tenth, 3 * tenth),
        WeightSection::Classification => (7 * tenth, len),
    };
    let slice = slice_subrange(data, lo, hi);
    let ws = extract_weights(slice);
    let required: usize = match section {
        WeightSection::FeatureExtraction => CONV_WEIGHT_COUNT,
        WeightSection::Classification => CLASSIFIER_WEIGHT_COUNT,
    };
    if ws.len() < required / 4 {
        return Err(CoreError::InsufficientWeights(section));
    }
    Ok(fit_weights(&ws, required))
}

} // verus!

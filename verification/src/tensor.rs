//! Fixed-point tensors and the operations of the dataflow graph.
//!
//! Tensor elements are signed 64-bit fixed-point numbers with 16 fractional
//! bits ([`SCALE`] units equal one). Products are divided back by the scale
//! and saturate at the representable range, so every operation is total on
//! well-typed inputs and a pure function of them.

use vstd::prelude::*;

use crate::errors::CoreError;
use vstd::arithmetic::div_mod::{
    lemma_div_denominator, lemma_div_is_ordered, lemma_div_nonincreasing, lemma_div_pos_is_pos,
};
use vstd::arithmetic::power2::pow2;

verus! {

/// Fixed-point units per one: tensor value `v` stands for `v / SCALE`.
pub const SCALE: i64 = 65536;

/// `ln(2) * SCALE`, rounded: the step at which the exponential halves.
pub const LN2_FIXED: u64 = 45426;

/// Quotient of `p` by `d`, rounded toward zero (the rounding of the
/// machine's signed division).
pub open spec fn div_toward_zero(p: int, d: int) -> int
    recommends
        d > 0,
{
    if p >= 0 {
        p / d
    } else {
        -((-p) / d)
    }
}

/// `x` clamped into `i64`'s range.
pub open spec fn clip_i64(x: int) -> i64 {
    if x > i64::MAX {
        i64::MAX
    } else if x < i64::MIN {
        i64::MIN
    } else {
        x as i64
    }
}

/// Fixed-point product: `a * b / SCALE`, rounded toward zero, saturating.
pub open spec fn spec_fixed_mul(a: i64, b: i64) -> i64 {
    clip_i64(div_toward_zero(a * b, SCALE as int))
}

/// Saturating sum.
pub open spec fn spec_sat_add(a: i64, b: i64) -> i64 {
    clip_i64(a + b)
}

/// Magnitude of `a` as an unsigned value.
pub fn abs_u64(a: i64) -> (r: u64)
    ensures
        r as int == if a >= 0 {
            a as int
        } else {
            -(a as int)
        },
{
    if a >= 0 {
        a as u64
    } else {
        (-(a as i128)) as u64
    }
}

/// Fixed-point product of two tensor elements.
pub fn fixed_mul(a: i64, b: i64) -> (r: i64)
    ensures
        r == spec_fixed_mul(a, b),
{
    let neg = (a < 0) != (b < 0);
    let ma = abs_u64(a);
    let mb = abs_u64(b);
    proof {
        assert(ma as int * mb as int <= 0x8000000000000000 * 0x8000000000000000) by (nonlinear_arith)
            requires
                0 <= ma as int <= 0x8000000000000000,
                0 <= mb as int <= 0x8000000000000000,
        ;
    }
    let p: u128 = (ma as u128) * (mb as u128);
    proof {
        assert(p == if a * b >= 0 {
            a * b
        } else {
            -(a * b)
        }) by (nonlinear_arith)
            requires
                ma as int == if a >= 0 {
                    a as int
                } else {
                    -(a as int)
                },
                mb as int == if b >= 0 {
                    b as int
                } else {
                    -(b as int)
                },
                p == ma as int * mb as int,
        ;
        assert((a * b < 0) ==> neg) by (nonlinear_arith)
            requires
                neg == ((a < 0) != (b < 0)),
        ;
        assert(neg ==> a * b <= 0) by (nonlinear_arith)
            requires
                neg == ((a < 0) != (b < 0)),
        ;
    }
    let q: u128 = p / 65536;
    if neg {
        if q >= 9223372036854775808u128 {
            i64::MIN
        } else {
            proof {
                if a * b < 0 {
                    lemma_div_pos_is_pos(-(a * b), 65536);
                }
            }
            -(q as i64)
        }
    } else {
        if q > 9223372036854775807u128 {
            i64::MAX
        } else {
            q as i64
        }
    }
}

/// Saturating sum of two tensor elements.
pub fn sat_add(a: i64, b: i64) -> (r: i64)
    ensures
        r == spec_sat_add(a, b),
{
    let s: i128 = a as i128 + b as i128;
    if s > i64::MAX as i128 {
        i64::MAX
    } else if s < i64::MIN as i128 {
        i64::MIN
    } else {
        s as i64
    }
}

/// Sum of a sequence of tensor elements, as an unbounded integer.
pub open spec fn sum_of(s: Seq<i64>) -> int
    decreases s.len(),
{
    if s.len() == 0 {
        0
    } else {
        sum_of(s.drop_last()) + s.last()
    }
}

/// Sum of a sequence of unbounded integers.
pub open spec fn sum_int(s: Seq<int>) -> int
    decreases s.len(),
{
    if s.len() == 0 {
        0
    } else {
        sum_int(s.drop_last()) + s.last()
    }
}

/// When every element lies in `[lo, hi]`, the sum lies in
/// `[len * lo, len * hi]` and dominates each element (for `lo >= 0`).
pub proof fn lemma_sum_int_bounds(s: Seq<int>, lo: int, hi: int)
    requires
        0 <= lo <= hi,
        forall|i: int| 0 <= i < s.len() ==> lo <= #[trigger] s[i] <= hi,
    ensures
        s.len() * lo <= sum_int(s) <= s.len() * hi,
        forall|i: int| 0 <= i < s.len() ==> #[trigger] s[i] <= sum_int(s),
    decreases s.len(),
{
    if s.len() > 0 {
        lemma_sum_int_bounds(s.drop_last(), lo, hi);
        assert(s.len() * lo == (s.len() - 1) * lo + lo) by (nonlinear_arith);
        assert(s.len() * hi == (s.len() - 1) * hi + hi) by (nonlinear_arith);
        assert forall|i: int| 0 <= i < s.len() implies #[trigger] s[i] <= sum_int(s) by {
            if i < s.len() - 1 {
                assert(s.drop_last()[i] == s[i]);
            }
        }
    }
}

/// Linear interpolation of the halving curve on one halving step:
/// one at zero, one half at [`LN2_FIXED`].
pub open spec fn exp_frac(r: int) -> int {
    65536 - (r * 32768) / 45426
}

/// Fixed-point approximation of `exp(-t / SCALE)`, scaled by [`SCALE`]:
/// whole halvings by the exponent's integer part, linear interpolation
/// within a step, floored at one unit so the result stays positive.
pub open spec fn spec_exp_fixed(t: u64) -> u64 {
    let k = t as int / 45426;
    let fr = exp_frac(t as int % 45426);
    let v = if k >= 17 {
        0int
    } else {
        fr / pow2(k as nat) as int
    };
    if v < 1 {
        1u64
    } else {
        v as u64
    }
}

/// Range of the interpolated fraction: within one halving step it stays
/// in `(SCALE / 2, SCALE]`.
pub proof fn lemma_exp_frac_range(r: int)
    requires
        0 <= r < 45426,
    ensures
        32768 < exp_frac(r) <= 65536,
{
    assert((r * 32768) / 45426 >= 0) by {
        lemma_div_pos_is_pos(r * 32768, 45426);
        assert(r * 32768 >= 0) by (nonlinear_arith)
            requires
                r >= 0,
        ;
    }
    assert(r * 32768 < 45426 * 32768) by (nonlinear_arith)
        requires
            0 <= r < 45426,
    ;
    assert((r * 32768) / 45426 < 32768) by {
        lemma_div_is_ordered(r * 32768, 45426 * 32768 - 1, 45426);
    }
}

/// The exponential approximation stays in `[1, SCALE]`.
pub proof fn lemma_exp_fixed_range(t: u64)
    ensures
        1 <= spec_exp_fixed(t) <= 65536,
{
    let k = t as int / 45426;
    let fr = exp_frac(t as int % 45426);
    lemma_exp_frac_range(t as int % 45426);
    if k < 17 {
        vstd::arithmetic::power2::lemma_pow2_pos(k as nat);
        lemma_div_pos_is_pos(fr, pow2(k as nat) as int);
        lemma_div_nonincreasing(fr, pow2(k as nat) as int);
    }
}

/// Computes [`spec_exp_fixed`].
pub fn exp_fixed(t: u64) -> (r: u64)
    ensures
        r == spec_exp_fixed(t),
        1 <= r <= 65536,
{
    proof {
        lemma_exp_fixed_range(t);
    }
    let k = t / 45426;
    let rem = t % 45426;
    if k >= 17 {
        return 1;
    }
    proof {
        lemma_exp_frac_range(rem as int);
        vstd::arithmetic::power2::lemma2_to64();
    }
    let fr: u64 = 65536 - (rem * 32768) / 45426;
    let mut v: u64 = fr;
    let mut i: u64 = 0;
    while i < k
        invariant
            0 <= i <= k < 17,
            fr == exp_frac(rem as int),
            32768 < fr <= 65536,
            v == fr as int / pow2(i as nat) as int,
        decreases k - i,
    {
        proof {
            vstd::arithmetic::power2::lemma_pow2_pos(i as nat);
            vstd::arithmetic::power2::lemma_pow2_pos((i + 1) as nat);
            lemma_div_pos_is_pos(fr as int, pow2(i as nat) as int);
            lemma_div_nonincreasing(fr as int, pow2(i as nat) as int);
            lemma_div_denominator(fr as int, pow2(i as nat) as int, 2);
            assert(pow2((i + 1) as nat) == pow2(i as nat) * 2) by {
                vstd::arithmetic::power2::lemma_pow2_adds(i as nat, 1);
                vstd::arithmetic::power2::lemma2_to64();
            }
        }
        v = v / 2;
        i = i + 1;
    }
    if v < 1 {
        1
    } else {
        v
    }
}

/// Largest element of a non-empty sequence.
pub open spec fn seq_max(s: Seq<i64>) -> i64
    recommends
        s.len() > 0,
    decreases s.len(),
{
    if s.len() <= 1 {
        s[0]
    } else if s.last() > seq_max(s.drop_last()) {
        s.last()
    } else {
        seq_max(s.drop_last())
    }
}

/// The largest element dominates every element.
pub proof fn lemma_seq_max_ge(s: Seq<i64>, i: int)
    requires
        0 <= i < s.len(),
    ensures
        s[i] <= seq_max(s),
    decreases s.len(),
{
    if s.len() > 1 && i < s.len() - 1 {
        lemma_seq_max_ge(s.drop_last(), i);
    }
}

/// Output length of the feature-extraction convolution: a quarter of the
/// input, at least one element, independent of the weight tensor's size.
pub open spec fn conv_output_len(n: nat) -> nat {
    if n / 4 < 1 {
        1nat
    } else {
        n / 4
    }
}

/// Convolution-like reduction: each output element is the fixed-point
/// product of a strided input element and a cyclically indexed weight.
pub open spec fn spec_conv(input: Seq<i64>, weight: Seq<i64>) -> Seq<i64>
    recommends
        input.len() > 0,
        weight.len() > 0,
{
    Seq::new(
        conv_output_len(input.len()),
        |i: int| spec_fixed_mul(input[(i * 4) % (input.len() as int)], weight[i % (weight.len() as int)]),
    )
}

/// Pairwise product reduction, truncated to the shorter operand.
pub open spec fn spec_matmul(a: Seq<i64>, b: Seq<i64>) -> Seq<i64> {
    Seq::new(
        if a.len() <= b.len() {
            a.len()
        } else {
            b.len()
        },
        |i: int| spec_fixed_mul(a[i], b[i]),
    )
}

/// Elementwise saturating sum of same-length tensors.
pub open spec fn spec_tensor_add(a: Seq<i64>, b: Seq<i64>) -> Seq<i64>
    recommends
        a.len() == b.len(),
{
    Seq::new(a.len(), |i: int| spec_sat_add(a[i], b[i]))
}

/// Elementwise maximum with zero.
pub open spec fn spec_relu(s: Seq<i64>) -> Seq<i64> {
    Seq::new(
        s.len(),
        |i: int|
            if s[i] < 0 {
                0i64
            } else {
                s[i]
            },
    )
}

/// Arithmetic mean of a non-empty tensor, as a one-element tensor.
pub open spec fn spec_pool(s: Seq<i64>) -> Seq<i64>
    recommends
        s.len() > 0,
{
    seq![clip_i64(div_toward_zero(sum_of(s), s.len() as int))]
}

/// Exponential weights of a tensor against its maximum: element `i` is the
/// approximated `exp((s[i] - max) / SCALE)`, scaled by [`SCALE`].
pub open spec fn exp_seq(s: Seq<i64>) -> Seq<int>
    recommends
        s.len() > 0,
{
    Seq::new(s.len(), |i: int| spec_exp_fixed((seq_max(s) - s[i]) as u64) as int)
}

/// Numerically stable softmax: exponentials are taken of differences from
/// the maximum, then normalized by their sum. Each output lies in
/// `[0, SCALE]`; an empty input yields an empty output.
pub open spec fn spec_softmax(s: Seq<i64>) -> Seq<i64> {
    if s.len() == 0 {
        Seq::empty()
    } else {
        let es = exp_seq(s);
        let total = sum_int(es);
        Seq::new(s.len(), |i: int| ((es[i] * 65536) / total) as i64)
    }
}

/// Computes [`spec_conv`]; both tensors must be non-empty.
pub fn simplified_conv(input: &Vec<i64>, weight: &Vec<i64>) -> (r: Result<Vec<i64>, CoreError>)
    ensures
        r is Ok <==> input@.len() > 0 && weight@.len() > 0,
        r matches Ok(v) ==> v@ == spec_conv(input@, weight@),
        r matches Err(e) ==> e == CoreError::ShapeMismatch,
{
    if input.len() == 0 || weight.len() == 0 {
        return Err(CoreError::ShapeMismatch);
    }
    let n = input.len();
    let out_len: usize = if n / 4 < 1 {
        1
    } else {
        n / 4
    };
    let mut out: Vec<i64> = Vec::new();
    let mut i: usize = 0;
    while i < out_len
        invariant
            i <= out_len,
            n == input@.len(),
            0 < n,
            0 < weight@.len(),
            out_len == conv_output_len(n as nat),
            out@.len() == i,
            forall|j: int| 0 <= j < i ==> out@[j] == spec_conv(input@, weight@)[j],
        decreases out_len - i,
    {
        proof {
            if n >= 4 {
                vstd::arithmetic::div_mod::lemma_fundamental_div_mod(n as int, 4);
            }
            assert(i * 4 <= n);
        }
        let idx = (i * 4) % n;
        let widx = i % weight.len();
        let v = fixed_mul(input[idx], weight[widx]);
        out.push(v);
        i = i + 1;
    }
    proof {
        assert(out@ =~= spec_conv(input@, weight@));
    }
    Ok(out)
}

/// Computes [`spec_matmul`]; both tensors must be non-empty.
pub fn matrix_multiply(a: &Vec<i64>, b: &Vec<i64>) -> (r: Result<Vec<i64>, CoreError>)
    ensures
        r is Ok <==> a@.len() > 0 && b@.len() > 0,
        r matches Ok(v) ==> v@ == spec_matmul(a@, b@),
        r matches Err(e) ==> e == CoreError::ShapeMismatch,
{
    if a.len() == 0 || b.len() == 0 {
        return Err(CoreError::ShapeMismatch);
    }
    let out_len: usize = if a.len() <= b.len() {
        a.len()
    } else {
        b.len()
    };
    let mut out: Vec<i64> = Vec::new();
    let mut i: usize = 0;
    while i < out_len
        invariant
            i <= out_len,
            out_len == spec_matmul(a@, b@).len(),
            out_len <= a@.len() && out_len <= b@.len(),
            out@.len() == i,
            forall|j: int| 0 <= j < i ==> out@[j] == spec_matmul(a@, b@)[j],
        decreases out_len - i,
    {
        let v = fixed_mul(a[i], b[i]);
        out.push(v);
        i = i + 1;
    }
    proof {
        assert(out@ =~= spec_matmul(a@, b@));
    }
    Ok(out)
}

/// Computes [`spec_tensor_add`]; the tensors must have equal lengths.
pub fn tensor_add(a: &Vec<i64>, b: &Vec<i64>) -> (r: Result<Vec<i64>, CoreError>)
    ensures
        r is Ok <==> a@.len() == b@.len(),
        r matches Ok(v) ==> v@ == spec_tensor_add(a@, b@),
        r matches Err(e) ==> e == CoreError::ShapeMismatch,
{
    if a.len() != b.len() {
        return Err(CoreError::ShapeMismatch);
    }
    let mut out: Vec<i64> = Vec::new();
    let mut i: usize = 0;
    while i < a.len()
        invariant
            i <= a@.len(),
            a@.len() == b@.len(),
            out@.len() == i,
            forall|j: int| 0 <= j < i ==> out@[j] == spec_tensor_add(a@, b@)[j],
        decreases a@.len() - i,
    {
        let v = sat_add(a[i], b[i]);
        out.push(v);
        i = i + 1;
    }
    proof {
        assert(out@ =~= spec_tensor_add(a@, b@));
    }
    Ok(out)
}

/// Computes [`spec_relu`].
pub fn relu(s: &Vec<i64>) -> (r: Vec<i64>)
    ensures
        r@ == spec_relu(s@),
{
    let mut out: Vec<i64> = Vec::new();
    let mut i: usize = 0;
    while i < s.len()
        invariant
            i <= s@.len(),
            out@.len() == i,
            forall|j: int| 0 <= j < i ==> out@[j] == spec_relu(s@)[j],
        decreases s@.len() - i,
    {
        if s[i] < 0 {
            out.push(0);
        } else {
            out.push(s[i]);
        }
        i = i + 1;
    }
    proof {
        assert(out@ =~= spec_relu(s@));
    }
    out
}

/// Quotient of `p` by `d`, rounded toward zero.
fn div_i128_toward_zero(p: i128, d: u64) -> (r: i128)
    requires
        d > 0,
        p > i128::MIN,
    ensures
        r == div_toward_zero(p as int, d as int),
{
    if p >= 0 {
        proof {
            lemma_div_nonincreasing(p as int, d as int);
            lemma_div_pos_is_pos(p as int, d as int);
        }
        ((p as u128) / (d as u128)) as i128
    } else {
        let m: u128 = (-p) as u128;
        proof {
            lemma_div_nonincreasing(m as int, d as int);
            lemma_div_pos_is_pos(m as int, d as int);
        }
        -(((m / (d as u128))) as i128)
    }
}

/// `v` clamped into `i64`'s range.
fn sat_i64(v: i128) -> (r: i64)
    ensures
        r == clip_i64(v as int),
{
    if v > i64::MAX as i128 {
        i64::MAX
    } else if v < i64::MIN as i128 {
        i64::MIN
    } else {
        v as i64
    }
}

/// Computes [`spec_pool`]: the mean of a non-empty tensor.
pub fn global_avg_pool(input: &Vec<i64>) -> (r: Result<Vec<i64>, CoreError>)
    ensures
        r is Ok <==> input@.len() > 0,
        r matches Ok(v) ==> v@ == spec_pool(input@),
        r matches Err(e) ==> e == CoreError::ShapeMismatch,
{
    if input.len() == 0 {
        return Err(CoreError::ShapeMismatch);
    }
    let n = input.len();
    let mut acc: i128 = 0;
    let mut i: usize = 0;
    while i < n
        invariant
            i <= n,
            n == input@.len(),
            acc == sum_of(input@.take(i as int)),
            -(i as int) * 0x8000000000000000 <= acc <= (i as int) * 0x7fffffffffffffff,
        decreases n - i,
    {
        proof {
            assert(input@.take(i + 1).drop_last() =~= input@.take(i as int));
            assert(-((i + 1) as int) * 0x8000000000000000 == -(i as int) * 0x8000000000000000
                - 0x8000000000000000) by (nonlinear_arith);
            assert(((i + 1) as int) * 0x7fffffffffffffff == (i as int) * 0x7fffffffffffffff
                + 0x7fffffffffffffff) by (nonlinear_arith);
            assert((i as int) * 0x8000000000000000 <= 0xffffffffffffffff * 0x8000000000000000)
                by (nonlinear_arith)
                requires
                    0 <= i as int <= 0xffffffffffffffff,
            ;
            assert((i as int) * 0x7fffffffffffffff <= 0xffffffffffffffff * 0x7fffffffffffffff)
                by (nonlinear_arith)
                requires
                    0 <= i as int <= 0xffffffffffffffff,
            ;
        }
        acc = acc + input[i] as i128;
        i = i + 1;
    }
    proof {
        assert(input@.take(n as int) =~= input@);
        assert(-(n as int) * 0x8000000000000000 >= -(0xffffffffffffffff * 0x8000000000000000))
            by (nonlinear_arith)
            requires
                0 < n as int <= 0xffffffffffffffff,
        ;
    }
    let mean = div_i128_toward_zero(acc, n as u64);
    let v = sat_i64(mean);
    let mut out: Vec<i64> = Vec::new();
    out.push(v);
    proof {
        assert(out@ =~= spec_pool(input@));
    }
    Ok(out)
}

/// Computes [`spec_softmax`]. Every output element lies in `[0, SCALE]`.
#[verifier::loop_isolation(false)]
pub fn softmax(input: &Vec<i64>) -> (r: Vec<i64>)
    ensures
        r@ == spec_softmax(input@),
        r@.len() == input@.len(),
        forall|j: int| 0 <= j < r@.len() ==> 0 <= #[trigger] r@[j] <= 65536,
{
    if input.len() == 0 {
        proof {
            assert(Seq::<i64>::empty() =~= spec_softmax(input@));
        }
        return Vec::new();
    }
    let n = input.len();
    // Maximum element.
    let mut mx = input[0];
    let mut i: usize = 1;
    proof {
        assert(input@.take(1) =~= seq![input@[0]]);
    }
    while i < n
        invariant
            1 <= i <= n,
            mx == seq_max(input@.take(i as int)),
        decreases n - i,
    {
        proof {
            assert(input@.take(i + 1).drop_last() =~= input@.take(i as int));
        }
        if input[i] > mx {
            mx = input[i];
        }
        i = i + 1;
    }
    proof {
        assert(input@.take(n as int) =~= input@);
    }
    // Exponentials of differences from the maximum, and their sum.
    let mut es: Vec<u64> = Vec::new();
    let mut total: u128 = 0;
    let mut i: usize = 0;
    while i < n
        invariant
            i <= n,
            es@.len() == i,
            forall|j: int| 0 <= j < i ==> #[trigger] es@[j] as int == exp_seq(input@)[j],
            forall|j: int| 0 <= j < i ==> 1 <= #[trigger] es@[j] <= 65536,
            total == sum_int(exp_seq(input@).take(i as int)),
            total <= (i as int) * 65536,
        decreases n - i,
    {
        proof {
            lemma_seq_max_ge(input@, i as int);
            assert(exp_seq(input@).take(i + 1).drop_last() =~= exp_seq(input@).take(i as int));
            assert(((i + 1) as int) * 65536 == (i as int) * 65536 + 65536) by (nonlinear_arith);
            assert((i as int) * 65536 <= 0xffffffffffffffff * 65536) by (nonlinear_arith)
                requires
                    0 <= i as int <= 0xffffffffffffffff,
            ;
        }
        let d: u64 = ((mx as i128) - (input[i] as i128)) as u64;
        let e = exp_fixed(d);
        es.push(e);
        total = total + e as u128;
        i = i + 1;
    }
    proof {
        assert(exp_seq(input@).take(n as int) =~= exp_seq(input@));
        assert forall|j: int| 0 <= j < exp_seq(input@).len() implies 1 <= #[trigger] exp_seq(
            input@,
        )[j] <= 65536 by {
            lemma_exp_fixed_range((seq_max(input@) - input@[j]) as u64);
        }
        lemma_sum_int_bounds(exp_seq(input@), 1, 65536);
        assert((n as int) * 1 >= 1) by (nonlinear_arith)
            requires
                n as int >= 1,
        ;
    }
    // Normalize.
    let mut out: Vec<i64> = Vec::new();
    let mut i: usize = 0;
    while i < n
        invariant
            i <= n,
            out@.len() == i,
            forall|j: int| 0 <= j < i ==> out@[j] == spec_softmax(input@)[j],
            forall|j: int| 0 <= j < i ==> 0 <= #[trigger] out@[j] <= 65536,
        decreases n - i,
    {
        let q: u128 = ((es[i] as u128) * 65536) / total;
        proof {
            let ei = es@[i as int] as int;
            assert(ei <= total as int);
            assert(ei * 65536 <= total as int * 65536) by (nonlinear_arith)
                requires
                    0 <= ei <= total as int,
            ;
            lemma_div_is_ordered(ei * 65536, total as int * 65536, total as int);
            vstd::arithmetic::div_mod::lemma_div_multiples_vanish(65536, total as int);
            lemma_div_pos_is_pos(ei * 65536, total as int);
        }
        out.push(q as i64);
        i = i + 1;
    }
    proof {
        assert(out@ =~= spec_softmax(input@));
    }
    out
}


} // verus!

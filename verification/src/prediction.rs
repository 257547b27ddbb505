//! Classification outcome: class probabilities, label and confidence.
//!
//! The three class scores are normalized by the stable softmax of
//! [`crate::tensor`], clamped away from absolute certainty, and reduced to a
//! label by a fixed tie-break order.

use vstd::prelude::*;

use crate::tensor::{exp_seq, softmax, spec_softmax, sum_int};
use vstd::arithmetic::div_mod::{
    lemma_div_is_ordered, lemma_div_pos_is_pos, lemma_fundamental_div_mod,
    lemma_mod_bound,
};

verus! {

/// Lowest reported class probability, in fixed point (about one percent).
pub const SCORE_MIN: i64 = 655;

/// Highest reported class probability, in fixed point (about 98 percent).
pub const SCORE_MAX: i64 = 64225;

/// Lowest reported confidence, in fixed point (about ten percent).
pub const CONFIDENCE_MIN: i64 = 6554;

/// Highest reported confidence, in fixed point (about 99 percent).
pub const CONFIDENCE_MAX: i64 = 64880;

/// `v` clamped into `[lo, hi]`.
pub open spec fn spec_clamp(v: i64, lo: i64, hi: i64) -> i64 {
    if v < lo {
        lo
    } else if v > hi {
        hi
    } else {
        v
    }
}

/// The three classes the system reports.
#[derive(Debug, Clone, Copy, PartialEq, Eq, Structural)]
pub enum PredictionLabel {
    /// Authentic media.
    Real,
    /// Synthetic media produced outright by a generator.
    AIGenerated,
    /// Manipulated media of a real subject.
    Deepfake,
}

/// Clamped class probabilities, in fixed point ([`crate::tensor::SCALE`]
/// units equal one).
#[derive(Debug, Clone, PartialEq, Eq, Structural)]
pub struct RawScores {
    /// Probability of the authentic class.
    pub real: i64,
    /// Probability of the generated class.
    pub ai_generated: i64,
    /// Probability of the manipulated class.
    pub deepfake: i64,
}

impl RawScores {
    /// Clamps each probability into `[SCORE_MIN, SCORE_MAX]` so no class is
    /// ever reported with absolute certainty.
    pub fn new(real_score: i64, ai_score: i64, deepfake_score: i64) -> (r: Self)
        ensures
            r.real == spec_clamp(real_score, SCORE_MIN, SCORE_MAX),
            r.ai_generated == spec_clamp(ai_score, SCORE_MIN, SCORE_MAX),
            r.deepfake == spec_clamp(deepfake_score, SCORE_MIN, SCORE_MAX),
    {
        Self {
            real: clamp_i64_range(real_score, SCORE_MIN, SCORE_MAX),
            ai_generated: clamp_i64_range(ai_score, SCORE_MIN, SCORE_MAX),
            deepfake: clamp_i64_range(deepfake_score, SCORE_MIN, SCORE_MAX),
        }
    }

    /// The winning class and its probability. Exact ties prefer the
    /// generated class, then the manipulated class, then the authentic one.
    pub fn get_max_score_and_label(&self) -> (r: (i64, PredictionLabel))
        ensures
            r == (if self.ai_generated >= self.deepfake && self.ai_generated >= self.real {
                (self.ai_generated, PredictionLabel::AIGenerated)
            } else if self.deepfake >= self.real {
                (self.deepfake, PredictionLabel::Deepfake)
            } else {
                (self.real, PredictionLabel::Real)
            }),
    {
        if self.ai_generated >= self.deepfake && self.ai_generated >= self.real {
            (self.ai_generated, PredictionLabel::AIGenerated)
        } else if self.deepfake >= self.real {
            (self.deepfake, PredictionLabel::Deepfake)
        } else {
            (self.real, PredictionLabel::Real)
        }
    }
}

/// A classification: winning label, its clamped confidence, and the full
/// score vector.
#[derive(Debug, Clone, PartialEq, Eq, Structural)]
pub struct PredictionResult {
    /// The winning class.
    pub label: PredictionLabel,
    /// The winning class's probability, clamped into
    /// `[CONFIDENCE_MIN, CONFIDENCE_MAX]`.
    pub confidence: i64,
    /// The clamped per-class probabilities.
    pub raw_scores: RawScores,
}

impl PredictionResult {
    /// Reduces a score vector to its winning label and clamped confidence.
    pub fn new(raw_scores: RawScores) -> (r: Self)
        ensures
            r.raw_scores == raw_scores,
            ({
                let (c, l) = (if raw_scores.ai_generated >= raw_scores.deepfake
                    && raw_scores.ai_generated >= raw_scores.real {
                    (raw_scores.ai_generated, PredictionLabel::AIGenerated)
                } else if raw_scores.deepfake >= raw_scores.real {
                    (raw_scores.deepfake, PredictionLabel::Deepfake)
                } else {
                    (raw_scores.real, PredictionLabel::Real)
                });
                r.label == l && r.confidence == spec_clamp(c, CONFIDENCE_MIN, CONFIDENCE_MAX)
            }),
    {
        let (confidence, label) = raw_scores.get_max_score_and_label();
        Self {
            label,
            confidence: clamp_i64_range(confidence, CONFIDENCE_MIN, CONFIDENCE_MAX),
            raw_scores,
        }
    }
}

/// Clamps `v` into `[lo, hi]`.
pub fn clamp_i64_range(v: i64, lo: i64, hi: i64) -> (r: i64)
    requires
        lo <= hi,
    ensures
        r == spec_clamp(v, lo, hi),
{
    if v < lo {
        lo
    } else if v > hi {
        hi
    } else {
        v
    }
}

/// The clamped score vector that three class scores normalize to.
pub open spec fn spec_normalize_scores(l0: i64, l1: i64, l2: i64) -> RawScores {
    let p = spec_softmax(seq![l0, l1, l2]);
    RawScores {
        real: spec_clamp(p[0], SCORE_MIN, SCORE_MAX),
        ai_generated: spec_clamp(p[1], SCORE_MIN, SCORE_MAX),
        deepfake: spec_clamp(p[2], SCORE_MIN, SCORE_MAX),
    }
}

/// Normalizes the three class scores: stable softmax, then the certainty
/// clamp.
pub fn normalize_scores(l0: i64, l1: i64, l2: i64) -> (r: RawScores)
    ensures
        r == spec_normalize_scores(l0, l1, l2),
{
    let mut v: Vec<i64> = Vec::new();
    v.push(l0);
    v.push(l1);
    v.push(l2);
    proof {
        assert(v@ =~= seq![l0, l1, l2]);
    }
    let p = softmax(&v);
    RawScores::new(p[0], p[1], p[2])
}

/// Probability normalization: for any three class scores, the normalized
/// probabilities before the certainty clamp sum to one within three
/// fixed-point units, every reported probability lies in
/// `[SCORE_MIN, SCORE_MAX]`, and the reported sum stays within the clamp's
/// distance of one.
pub proof fn lemma_probability_normalization(l0: i64, l1: i64, l2: i64)
    ensures
        ({
            let p = spec_softmax(seq![l0, l1, l2]);
            65534 <= p[0] + p[1] + p[2] <= 65536
        }),
        ({
            let r = spec_normalize_scores(l0, l1, l2);
            &&& SCORE_MIN <= r.real <= SCORE_MAX
            &&& SCORE_MIN <= r.ai_generated <= SCORE_MAX
            &&& SCORE_MIN <= r.deepfake <= SCORE_MAX
            &&& 61601 <= r.real + r.ai_generated + r.deepfake <= 67501
        }),
{
    let s = seq![l0, l1, l2];
    let es = exp_seq(s);
    let total = sum_int(es);
    assert(es.len() == 3);
    assert forall|j: int| 0 <= j < 3 implies 1 <= #[trigger] es[j] <= 65536 by {
        crate::tensor::lemma_exp_fixed_range((crate::tensor::seq_max(s) - s[j]) as u64);
    }
    assert(es.drop_last() =~= seq![es[0], es[1]]);
    assert(seq![es[0], es[1]].drop_last() =~= seq![es[0]]);
    assert(seq![es[0]].drop_last() =~= Seq::<int>::empty());
    assert(sum_int(Seq::<int>::empty()) == 0);
    assert(sum_int(seq![es[0]]) == es[0]);
    assert(sum_int(seq![es[0], es[1]]) == es[0] + es[1]);
    assert(sum_int(es) == sum_int(es.drop_last()) + es[2]);
    assert(total == es[0] + es[1] + es[2]);
    assert(3 <= total <= 3 * 65536);
    let q0 = (es[0] * 65536) / total;
    let q1 = (es[1] * 65536) / total;
    let q2 = (es[2] * 65536) / total;
    assert(es[0] * 65536 + es[1] * 65536 + es[2] * 65536 == total * 65536);
    lemma_fundamental_div_mod(es[0] * 65536, total);
    lemma_fundamental_div_mod(es[1] * 65536, total);
    lemma_fundamental_div_mod(es[2] * 65536, total);
    lemma_mod_bound(es[0] * 65536, total);
    lemma_mod_bound(es[1] * 65536, total);
    lemma_mod_bound(es[2] * 65536, total);
    let r0 = (es[0] * 65536) % total;
    let r1 = (es[1] * 65536) % total;
    let r2 = (es[2] * 65536) % total;
    assert(total * q0 + total * q1 + total * q2 == total * 65536 - r0 - r1 - r2);
    assert(total * (q0 + q1 + q2) == total * q0 + total * q1 + total * q2) by (nonlinear_arith);
    assert(total * (q0 + q1 + q2) > total * 65536 - 3 * total);
    assert(total * (q0 + q1 + q2) == total * 65536 - (r0 + r1 + r2));
    assert(q0 + q1 + q2 > 65533) by (nonlinear_arith)
        requires
            total > 0,
            total * (q0 + q1 + q2) > total * 65536 - 3 * total,
    ;
    assert(q0 + q1 + q2 <= 65536) by (nonlinear_arith)
        requires
            total > 0,
            total * (q0 + q1 + q2) == total * 65536 - (r0 + r1 + r2),
            r0 + r1 + r2 >= 0,
    ;
    let p = spec_softmax(s);
    assert(p[0] == q0 as i64 && p[1] == q1 as i64 && p[2] == q2 as i64);
    assert forall|j: int| 0 <= j < 3 implies 0 <= (#[trigger] es[j] * 65536) / total <= 65536 by {
        assert(es[j] * 65536 >= 0) by (nonlinear_arith)
            requires
                es[j] >= 1,
        ;
        lemma_div_pos_is_pos(es[j] * 65536, total);
        assert(es[j] * 65536 <= total * 65536) by (nonlinear_arith)
            requires
                1 <= es[j] <= total,
        ;
        lemma_div_is_ordered(es[j] * 65536, total * 65536, total);
        vstd::arithmetic::div_mod::lemma_div_multiples_vanish(65536, total);
    }
}

} // verus!

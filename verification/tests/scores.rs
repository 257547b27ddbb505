//! Tests of fixed-point tensor operations and score normalization.

use verichain_core::prediction::{
    clamp_i64_range, CONFIDENCE_MAX, CONFIDENCE_MIN, SCORE_MAX, SCORE_MIN,
};
use verichain_core::tensor::{
    exp_fixed, fixed_mul, global_avg_pool, matrix_multiply, relu, sat_add, simplified_conv,
    softmax, tensor_add, SCALE,
};
use verichain_core::{
    aggregate_frames, normalize_scores, CoreError, PredictionLabel, PredictionResult, RawScores,
};

#[test]
fn fixed_mul_values() {
    // 1.0 * 0.5 == 0.5
    assert_eq!(fixed_mul(65536, 32768), 32768);
    // (-2.0) * 1.5 == -3.0
    assert_eq!(fixed_mul(-131072, 98304), -196608);
    assert_eq!(fixed_mul(0, 12345), 0);
    // Rounding is toward zero.
    assert_eq!(fixed_mul(1, 1), 0);
    assert_eq!(fixed_mul(-1, 1), 0);
    // Saturation at the representable range.
    assert_eq!(fixed_mul(i64::MAX, i64::MAX), i64::MAX);
    assert_eq!(fixed_mul(i64::MAX, i64::MIN), i64::MIN);
}

#[test]
fn sat_add_values() {
    assert_eq!(sat_add(1, 2), 3);
    assert_eq!(sat_add(i64::MAX, 1), i64::MAX);
    assert_eq!(sat_add(i64::MIN, -1), i64::MIN);
    assert_eq!(sat_add(i64::MIN, i64::MAX), -1);
}

#[test]
fn conv_output_is_quarter_length() {
    let input: Vec<i64> = vec![65536; 8];
    let weight: Vec<i64> = vec![32768, 16384];
    let out = simplified_conv(&input, &weight).unwrap();
    // Eight inputs give two outputs; weights are indexed cyclically.
    assert_eq!(out, vec![32768, 16384]);
    let short = simplified_conv(&vec![65536, 65536], &weight).unwrap();
    assert_eq!(short, vec![32768]);
    assert!(matches!(
        simplified_conv(&vec![], &weight),
        Err(CoreError::ShapeMismatch)
    ));
    assert!(matches!(
        simplified_conv(&input, &vec![]),
        Err(CoreError::ShapeMismatch)
    ));
}

#[test]
fn matmul_truncates_to_shorter() {
    let a: Vec<i64> = vec![65536, 131072, 196608];
    let b: Vec<i64> = vec![32768, 32768];
    let out = matrix_multiply(&a, &b).unwrap();
    assert_eq!(out, vec![32768, 65536]);
    assert!(matches!(
        matrix_multiply(&vec![], &b),
        Err(CoreError::ShapeMismatch)
    ));
}

#[test]
fn tensor_add_requires_equal_lengths() {
    let out = tensor_add(&vec![1, 2], &vec![10, 20]).unwrap();
    assert_eq!(out, vec![11, 22]);
    assert!(matches!(
        tensor_add(&vec![1], &vec![1, 2]),
        Err(CoreError::ShapeMismatch)
    ));
    assert_eq!(tensor_add(&vec![], &vec![]).unwrap(), Vec::<i64>::new());
}

#[test]
fn relu_clips_negatives() {
    assert_eq!(relu(&vec![-5, 0, 7]), vec![0, 0, 7]);
    assert_eq!(relu(&vec![]), Vec::<i64>::new());
}

#[test]
fn pool_takes_the_mean() {
    assert_eq!(global_avg_pool(&vec![2, 4, 6]).unwrap(), vec![4]);
    // Rounding is toward zero for a negative mean.
    assert_eq!(global_avg_pool(&vec![-3, -4]).unwrap(), vec![-3]);
    assert!(matches!(
        global_avg_pool(&vec![]),
        Err(CoreError::ShapeMismatch)
    ));
}

#[test]
fn exp_fixed_values() {
    // exp(0) is one.
    assert_eq!(exp_fixed(0), 65536);
    // One halving step down is exactly one half.
    assert_eq!(exp_fixed(45426), 32768);
    assert_eq!(exp_fixed(2 * 45426), 16384);
    // Far in the tail the approximation floors at one unit.
    assert_eq!(exp_fixed(u64::MAX), 1);
    for t in [0u64, 1000, 45426, 100000, 1000000] {
        let e = exp_fixed(t);
        assert!(1 <= e && e <= 65536);
    }
}

#[test]
fn softmax_of_equal_scores_is_uniform() {
    let p = softmax(&vec![0, 0, 0]);
    assert_eq!(p, vec![21845, 21845, 21845]);
    let p = softmax(&vec![123456, 123456, 123456, 123456]);
    assert_eq!(p, vec![16384, 16384, 16384, 16384]);
    assert_eq!(softmax(&vec![]), Vec::<i64>::new());
}

#[test]
fn softmax_orders_by_score() {
    let p = softmax(&vec![0, 65536, 131072]);
    assert!(p[0] < p[1] && p[1] < p[2]);
    let sum: i64 = p.iter().sum();
    assert!(65533 <= sum && sum <= 65536);
}

#[test]
fn normalize_scores_sums_to_about_one() {
    // Equal scores split evenly and stay inside the clamp bounds.
    let r = normalize_scores(0, 0, 0);
    assert_eq!(r.real, 21845);
    assert_eq!(r.ai_generated, 21845);
    assert_eq!(r.deepfake, 21845);

    // An extreme winner is clamped away from certainty, the losers away
    // from impossibility.
    let r = normalize_scores(100 * SCALE, -100 * SCALE, 0);
    assert_eq!(r.real, SCORE_MAX);
    assert_eq!(r.ai_generated, SCORE_MIN);
    for r in [
        normalize_scores(0, 0, 0),
        normalize_scores(i64::MAX, i64::MIN, 0),
        normalize_scores(-1, -2, -3),
        normalize_scores(7 * SCALE, 7 * SCALE, -7 * SCALE),
    ] {
        for p in [r.real, r.ai_generated, r.deepfake] {
            assert!(SCORE_MIN <= p && p <= SCORE_MAX);
        }
        let sum = r.real + r.ai_generated + r.deepfake;
        assert!(61601 <= sum && sum <= 67501);
    }
}

#[test]
fn raw_scores_clamp_each_class() {
    let r = RawScores::new(-5, 70000, 30000);
    assert_eq!(r.real, SCORE_MIN);
    assert_eq!(r.ai_generated, SCORE_MAX);
    assert_eq!(r.deepfake, 30000);
}

#[test]
fn tie_break_prefers_generated_then_manipulated() {
    let even = RawScores::new(21845, 21845, 21845);
    assert_eq!(
        even.get_max_score_and_label(),
        (21845, PredictionLabel::AIGenerated)
    );
    let real_vs_fake = RawScores::new(30000, 1000, 30000);
    assert_eq!(
        real_vs_fake.get_max_score_and_label(),
        (30000, PredictionLabel::Deepfake)
    );
    let real_wins = RawScores::new(30000, 1000, 29999);
    assert_eq!(
        real_wins.get_max_score_and_label(),
        (30000, PredictionLabel::Real)
    );
}

#[test]
fn prediction_result_clamps_confidence() {
    let weak = PredictionResult::new(RawScores::new(655, 655, 655));
    assert_eq!(weak.label, PredictionLabel::AIGenerated);
    assert_eq!(weak.confidence, CONFIDENCE_MIN);
    let strong = PredictionResult::new(RawScores::new(SCORE_MIN, SCORE_MAX, SCORE_MIN));
    assert_eq!(strong.label, PredictionLabel::AIGenerated);
    assert_eq!(strong.confidence, SCORE_MAX);
    assert!(strong.confidence <= CONFIDENCE_MAX);
}

#[test]
fn clamp_range_behaves() {
    assert_eq!(clamp_i64_range(5, 0, 10), 5);
    assert_eq!(clamp_i64_range(-5, 0, 10), 0);
    assert_eq!(clamp_i64_range(50, 0, 10), 10);
}

#[test]
fn frame_aggregation_mean_and_threshold() {
    // Two of six frames flagged: one third is over the three-tenths bar.
    let confidences = vec![65536, 32768, 32768, 32768, 32768, 32768];
    let flags = vec![true, true, false, false, false, false];
    let (mean, flagged) = aggregate_frames(&confidences, &flags).unwrap();
    assert_eq!(mean, (65536 + 5 * 32768) / 6);
    assert!(flagged);

    // Three of ten is not strictly over the bar.
    let confidences = vec![32768; 10];
    let mut flags = vec![false; 10];
    flags[0] = true;
    flags[1] = true;
    flags[2] = true;
    let (_, flagged) = aggregate_frames(&confidences, &flags).unwrap();
    assert!(!flagged);

    assert!(matches!(
        aggregate_frames(&vec![], &vec![]),
        Err(CoreError::ShapeMismatch)
    ));
    assert!(matches!(
        aggregate_frames(&vec![1], &vec![true, false]),
        Err(CoreError::ShapeMismatch)
    ));
}

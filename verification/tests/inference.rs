//! Tests of the graph engine, the weight derivation, and the pipeline.

use verichain_core::{
    decode_weight, derive_section_weights, extract_weights, CoreError, InferenceEngine, ONNXNode,
    ONNXOperation, VeriChainModel, VeriChainONNXModel, WeightSection,
};

/// An artifact of `n` copies of the little-endian bytes of `x`.
fn artifact_of(x: f32, n: usize) -> Vec<u8> {
    let mut out = Vec::with_capacity(4 * n);
    for _ in 0..n {
        out.extend_from_slice(&x.to_le_bytes());
    }
    out
}

fn node(name: &str, op: &str, inputs: &[&str], outputs: &[&str]) -> ONNXNode {
    ONNXNode::new(
        name.to_string(),
        op.to_string(),
        inputs.iter().map(|s| s.to_string()).collect(),
        outputs.iter().map(|s| s.to_string()).collect(),
    )
}

#[test]
fn decode_weight_known_values() {
    let b = 1.0f32.to_le_bytes();
    assert_eq!(decode_weight(b[0], b[1], b[2], b[3]), Some(65536));
    let b = (-2.5f32).to_le_bytes();
    assert_eq!(decode_weight(b[0], b[1], b[2], b[3]), Some(-163840));
    let b = 0.5f32.to_le_bytes();
    assert_eq!(decode_weight(b[0], b[1], b[2], b[3]), Some(32768));
    // Out of magnitude: five and above are filtered.
    let b = 5.0f32.to_le_bytes();
    assert_eq!(decode_weight(b[0], b[1], b[2], b[3]), None);
    let b = 4.5f32.to_le_bytes();
    assert_eq!(decode_weight(b[0], b[1], b[2], b[3]), Some(294912));
    // Zero, subnormals, infinities and NaN are filtered.
    let b = 0.0f32.to_le_bytes();
    assert_eq!(decode_weight(b[0], b[1], b[2], b[3]), None);
    let b = f32::INFINITY.to_le_bytes();
    assert_eq!(decode_weight(b[0], b[1], b[2], b[3]), None);
    let b = f32::NAN.to_le_bytes();
    assert_eq!(decode_weight(b[0], b[1], b[2], b[3]), None);
    let b = 1.0e-8f32.to_le_bytes();
    assert_eq!(decode_weight(b[0], b[1], b[2], b[3]), None);
    // A value that rounds down to zero fixed-point units is filtered.
    let b = 1.0e-6f32.to_le_bytes();
    assert_eq!(decode_weight(b[0], b[1], b[2], b[3]), None);
}

#[test]
fn extract_weights_skips_invalid_groups() {
    let mut data = Vec::new();
    data.extend_from_slice(&1.0f32.to_le_bytes());
    data.extend_from_slice(&0.0f32.to_le_bytes());
    data.extend_from_slice(&(-0.25f32).to_le_bytes());
    data.push(0xFF); // trailing partial group is ignored
    let ws = extract_weights(&data);
    assert_eq!(ws, vec![65536, -16384]);
}

#[test]
fn derive_section_weights_pads_and_truncates() {
    // 40000 bytes of 1.0: the feature region holds 2000 usable values and is
    // truncated to 1000; the classification region holds exactly 3000.
    let artifact = artifact_of(1.0, 10000);
    let conv = derive_section_weights(&artifact, WeightSection::FeatureExtraction).unwrap();
    assert_eq!(conv.len(), 1000);
    assert!(conv.iter().all(|w| *w == 65536));
    let cls = derive_section_weights(&artifact, WeightSection::Classification).unwrap();
    assert_eq!(cls.len(), 3000);
    assert!(cls.iter().all(|w| *w == 65536));
}

#[test]
fn derive_section_weights_fails_on_barren_region() {
    let artifact = vec![0u8; 40000];
    let r = derive_section_weights(&artifact, WeightSection::FeatureExtraction);
    assert!(matches!(
        r,
        Err(CoreError::InsufficientWeights(WeightSection::FeatureExtraction))
    ));
}

#[test]
fn from_artifact_builds_standard_graph() {
    let artifact = artifact_of(0.5, 10000);
    let model = VeriChainONNXModel::from_artifact(&artifact).unwrap();
    assert!(model.validate());
    assert_eq!(model.graph_nodes.len(), 3);
    assert_eq!(model.graph_nodes[0].op_type, "Conv");
    assert_eq!(model.graph_nodes[1].op_type, "MatMul");
    assert_eq!(model.graph_nodes[2].op_type, "Softmax");
    assert!(model.get_weight("conv_weight").is_some());
    assert!(model.get_weight("classifier_weight").is_some());
    assert!(model.get_weight("bias").is_none());
}

#[test]
fn from_artifact_rejects_barren_artifact() {
    let r = VeriChainONNXModel::from_artifact(&vec![0u8; 1000]);
    assert!(matches!(r, Err(CoreError::InsufficientWeights(_))));
}

#[test]
fn run_is_deterministic_across_calls_and_engines() {
    let artifact = artifact_of(0.25, 10000);
    let model = VeriChainONNXModel::from_artifact(&artifact).unwrap();
    let input: Vec<i64> = (0..64).map(|i| (i as i64) * 1024 - 32768).collect();

    let mut engine = InferenceEngine::new();
    let first = engine.run_graph(&model, input.clone()).unwrap();
    let second = engine.run_graph(&model, input.clone()).unwrap();
    assert_eq!(first, second);

    let mut fresh = InferenceEngine::new();
    let third = fresh.run_graph(&model, input.clone()).unwrap();
    assert_eq!(first, third);

    let d1 = engine.execute_inference(&model, input.clone()).unwrap();
    let d2 = fresh.execute_inference(&model, input).unwrap();
    assert_eq!(d1.is_deepfake, d2.is_deepfake);
    assert_eq!(d1.confidence, d2.confidence);
}

#[test]
fn engine_probabilities_are_normalized() {
    let artifact = artifact_of(0.25, 10000);
    let model = VeriChainONNXModel::from_artifact(&artifact).unwrap();
    let input: Vec<i64> = vec![65536; 32];
    let mut engine = InferenceEngine::new();
    let p = engine.run_graph(&model, input).unwrap();
    assert_eq!(p.len(), 3);
    let sum: i64 = p.iter().sum();
    assert!(p.iter().all(|x| 0 <= *x && *x <= 65536));
    assert!(65534 <= sum && sum <= 65536);
}

#[test]
fn relu_graph_runs_through_engine() {
    let mut model = VeriChainONNXModel::new();
    model.add_weight("unused".to_string(), vec![65536]);
    model.add_node(node("r", "Relu", &["input_tensor"], &["output"]));
    let mut engine = InferenceEngine::new();
    let p = engine
        .run_graph(&model, vec![-65536, 0, 65536])
        .unwrap();
    // After clipping negatives, the scores are [0, 0, 65536]: the two equal
    // classes tie below the third.
    assert_eq!(p.len(), 3);
    assert_eq!(p[0], p[1]);
    assert!(p[2] > p[0]);
}

#[test]
fn add_graph_doubles_the_input() {
    let mut model = VeriChainONNXModel::new();
    model.add_node(node(
        "sum",
        "Add",
        &["input_tensor", "input_tensor"],
        &["output"],
    ));
    let mut engine = InferenceEngine::new();
    let p = engine.run_graph(&model, vec![100, 200, 300]).unwrap();
    assert_eq!(p.len(), 3);
    // Doubling preserves the order of the scores.
    assert!(p[0] <= p[1] && p[1] <= p[2]);
}

#[test]
fn engine_reports_unknown_tensor() {
    let mut model = VeriChainONNXModel::new();
    model.add_node(node("r", "Relu", &["bogus"], &["output"]));
    let mut engine = InferenceEngine::new();
    let r = engine.run_graph(&model, vec![1, 2, 3]);
    match r {
        Err(CoreError::UnknownTensor(name)) => assert_eq!(name, "bogus"),
        other => panic!("unexpected outcome: {:?}", other),
    }
}

#[test]
fn engine_reports_unsupported_operation() {
    let mut model = VeriChainONNXModel::new();
    model.add_node(node("x", "Transpose", &["input_tensor"], &["output"]));
    let mut engine = InferenceEngine::new();
    let r = engine.run_graph(&model, vec![1, 2, 3]);
    match r {
        Err(CoreError::UnsupportedOperation(op)) => assert_eq!(op, "Transpose"),
        other => panic!("unexpected outcome: {:?}", other),
    }
}

#[test]
fn engine_reports_short_output() {
    // With no nodes, the fallback output is the input tensor itself; fewer
    // than three scores cannot be classified.
    let model = VeriChainONNXModel::new();
    let mut engine = InferenceEngine::new();
    let r = engine.run_graph(&model, vec![1, 2]);
    assert!(matches!(r, Err(CoreError::ShapeMismatch)));
}

#[test]
fn engine_falls_back_to_last_tensor() {
    // The node writes under a name other than the designated output name;
    // the engine falls back to the most recently produced tensor and says
    // so in the result's metadata.
    let mut model = VeriChainONNXModel::new();
    model.add_node(node("r", "Relu", &["input_tensor"], &["stash"]));
    let mut engine = InferenceEngine::new();
    let p = engine.run_graph(&model, vec![65536, 0, -65536]).unwrap();
    assert_eq!(p.len(), 3);
    assert_eq!(p[1], p[2]);
    assert!(p[0] > p[1]);
    let d = engine
        .execute_inference(&model, vec![65536, 0, -65536])
        .unwrap();
    assert_eq!(d.metadata.as_deref(), Some("fallback_output"));

    let mut named = VeriChainONNXModel::new();
    named.add_node(node("r", "Relu", &["input_tensor"], &["output"]));
    let d = engine
        .execute_inference(&named, vec![65536, 0, -65536])
        .unwrap();
    assert!(d.metadata.is_none());
}

#[test]
fn node_operations_resolve_by_name() {
    let ops = [
        ("Conv", ONNXOperation::Conv),
        ("MatMul", ONNXOperation::MatMul),
        ("Add", ONNXOperation::Add),
        ("Relu", ONNXOperation::Relu),
        ("Softmax", ONNXOperation::Softmax),
        ("Reshape", ONNXOperation::Reshape),
        ("GlobalAveragePool", ONNXOperation::GlobalAveragePool),
    ];
    for (name, op) in ops {
        let n = node("n", name, &["a"], &["b"]);
        assert_eq!(n.get_operation(), Some(op));
    }
    assert_eq!(node("n", "conv", &["a"], &["b"]).get_operation(), None);
    assert_eq!(node("n", "", &["a"], &["b"]).get_operation(), None);
}

#[test]
fn node_validate_requires_all_parts() {
    assert!(node("n", "Relu", &["a"], &["b"]).validate());
    assert!(!node("", "Relu", &["a"], &["b"]).validate());
    assert!(!node("n", "", &["a"], &["b"]).validate());
    assert!(!node("n", "Relu", &[], &["b"]).validate());
    assert!(!node("n", "Relu", &["a"], &[]).validate());
}

#[test]
fn model_accessors() {
    let mut model = VeriChainONNXModel::new();
    assert!(!model.validate());
    model.add_weight("w".to_string(), vec![1, 2]);
    model.add_weight("w".to_string(), vec![3]);
    // The most recent weight under a name wins.
    assert_eq!(model.get_weight("w").unwrap(), &vec![3]);
    model.add_node(node("n", "Relu", &["input_tensor"], &["output"]));
    assert!(model.validate());
    assert_eq!(model.input_shape, (3, 224, 224));
    assert_eq!(model.output_shape, 3);
}

#[test]
fn node_attributes_append() {
    let mut n = node("n", "Conv", &["a"], &["b"]);
    n.add_attribute("stride".to_string(), vec![4]);
    n.add_attribute("pad".to_string(), vec![0, 0]);
    assert_eq!(n.attributes.len(), 2);
    assert_eq!(n.attributes[0].0, "stride");
    assert_eq!(n.attributes[1].1, vec![0, 0]);
}

#[test]
fn predict_requires_loaded_model() {
    let model = VeriChainModel::new().unwrap();
    assert!(!model.is_loaded());
    let r = model.predict(&vec![0; 16]);
    assert!(matches!(r, Err(CoreError::ModelNotReady)));
}

#[test]
fn load_from_bytes_rejects_wrong_size() {
    let mut model = VeriChainModel::new().unwrap();
    let r = model.load_from_bytes(&[0u8; 64]);
    assert!(matches!(r, Err(CoreError::SizeMismatch)));
    assert!(!model.is_loaded());
    assert!(model.get_model_data().is_none());
    assert!(model.get_model_hash().is_none());
}

#[test]
fn model_registry_accessors() {
    let mut model = VeriChainModel::new().unwrap();
    assert_eq!(model.get_input_shape(), (3, 224, 224));
    let formats = model.get_supported_formats();
    assert_eq!(formats, vec!["PNG", "JPEG", "JPG"]);
    model.unload();
    assert!(!model.is_loaded());
}

#[test]
fn standard_graph_satisfies_dag_invariant() {
    let artifact = artifact_of(0.5, 10000);
    let model = VeriChainONNXModel::from_artifact(&artifact).unwrap();
    assert!(model.validate_dag());
}

#[test]
fn dag_invariant_rejects_forward_references() {
    let mut model = VeriChainONNXModel::new();
    // The node consumes a tensor produced only by the node after it.
    model.add_node(node("late", "Relu", &["not_yet"], &["output"]));
    model.add_node(node("early", "Relu", &["input_tensor"], &["not_yet"]));
    assert!(!model.validate_dag());

    let mut ordered = VeriChainONNXModel::new();
    ordered.add_node(node("early", "Relu", &["input_tensor"], &["mid"]));
    ordered.add_node(node("late", "Relu", &["mid"], &["output"]));
    assert!(ordered.validate_dag());

    let mut unknown_op = VeriChainONNXModel::new();
    unknown_op.add_node(node("x", "Transpose", &["input_tensor"], &["output"]));
    assert!(!unknown_op.validate_dag());
}

#[test]
fn integrity_check_requires_loaded_model() {
    let model = VeriChainModel::new().unwrap();
    assert!(matches!(
        model.verify_model_integrity(),
        Err(CoreError::ModelNotReady)
    ));
}

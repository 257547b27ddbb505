//! The inference engine: executes a graph's nodes in declaration order
//! against an input tensor.
//!
//! The whole run is specified by [`spec_run_graph`], a function of the
//! model's weight table, its node sequence and the input tensor alone, so a
//! run's outcome never depends on hidden engine state. The activation table
//! is rebuilt from scratch on every run.

use vstd::prelude::*;

use crate::errors::{CoreError, ErrorView};
use crate::media::{DetectionResult, MediaType};
use crate::onnx::{
    nodes_view, spec_lookup, spec_operation_of, NodeView, ONNXOperation, TensorTable,
    VeriChainONNXModel,
};
use crate::prediction::{spec_clamp, PredictionLabel, RawScores, SCORE_MAX, SCORE_MIN};
use crate::tensor::{
    global_avg_pool, matrix_multiply, relu, simplified_conv, softmax, spec_conv, spec_matmul,
    spec_pool, spec_relu, spec_softmax, spec_tensor_add, tensor_add,
};
use vstd::string::StringExecFns;

verus! {

/// What executing one node does to the activation table: the tensor it
/// stores under its first output name, or the typed cause of failure.
/// Weight names resolve in the model's weight table; everything else
/// resolves among the activations.
pub open spec fn spec_node_step(
    weights: Seq<(Seq<char>, Seq<i64>)>,
    acts: Seq<(Seq<char>, Seq<i64>)>,
    node: NodeView,
) -> Result<(Seq<char>, Seq<i64>), ErrorView> {
    match spec_operation_of(node.op) {
        None => Err(ErrorView::UnsupportedOperation(node.op)),
        Some(op) => match op {
            ONNXOperation::Conv => {
                if node.inputs.len() < 2 {
                    Err(ErrorView::ShapeMismatch)
                } else {
                    match spec_lookup(acts, node.inputs[0]) {
                        None => Err(ErrorView::UnknownTensor(node.inputs[0])),
                        Some(input) => match spec_lookup(weights, node.inputs[1]) {
                            None => Err(ErrorView::UnknownTensor(node.inputs[1])),
                            Some(w) => {
                                if input.len() == 0 || w.len() == 0 {
                                    Err(ErrorView::ShapeMismatch)
                                } else if node.outputs.len() == 0 {
                                    Err(ErrorView::ShapeMismatch)
                                } else {
                                    Ok((node.outputs[0], spec_conv(input, w)))
                                }
                            },
                        },
                    }
                }
            },
            ONNXOperation::MatMul => {
                if node.inputs.len() < 2 {
                    Err(ErrorView::ShapeMismatch)
                } else {
                    match spec_lookup(acts, node.inputs[0]) {
                        None => Err(ErrorView::UnknownTensor(node.inputs[0])),
                        Some(input) => match spec_lookup(weights, node.inputs[1]) {
                            None => Err(ErrorView::UnknownTensor(node.inputs[1])),
                            Some(w) => {
                                if input.len() == 0 || w.len() == 0 {
                                    Err(ErrorView::ShapeMismatch)
                                } else if node.outputs.len() == 0 {
                                    Err(ErrorView::ShapeMismatch)
                                } else {
                                    Ok((node.outputs[0], spec_matmul(input, w)))
                                }
                            },
                        },
                    }
                }
            },
            ONNXOperation::Add => {
                if node.inputs.len() < 2 {
                    Err(ErrorView::ShapeMismatch)
                } else {
                    match spec_lookup(acts, node.inputs[0]) {
                        None => Err(ErrorView::UnknownTensor(node.inputs[0])),
                        Some(a) => match spec_lookup(acts, node.inputs[1]) {
                            None => Err(ErrorView::UnknownTensor(node.inputs[1])),
                            Some(b) => {
                                if a.len() != b.len() {
                                    Err(ErrorView::ShapeMismatch)
                                } else if node.outputs.len() == 0 {
                                    Err(ErrorView::ShapeMismatch)
                                } else {
                                    Ok((node.outputs[0], spec_tensor_add(a, b)))
                                }
                            },
                        },
                    }
                }
            },
            ONNXOperation::Relu => {
                if node.inputs.len() < 1 {
                    Err(ErrorView::ShapeMismatch)
                } else {
                    match spec_lookup(acts, node.inputs[0]) {
                        None => Err(ErrorView::UnknownTensor(node.inputs[0])),
                        Some(input) => {
                            if node.outputs.len() == 0 {
                                Err(ErrorView::ShapeMismatch)
                            } else {
                                Ok((node.outputs[0], spec_relu(input)))
                            }
                        },
                    }
                }
            },
            ONNXOperation::Softmax => {
                if node.inputs.len() < 1 {
                    Err(ErrorView::ShapeMismatch)
                } else {
                    match spec_lookup(acts, node.inputs[0]) {
                        None => Err(ErrorView::UnknownTensor(node.inputs[0])),
                        Some(input) => {
                            if node.outputs.len() == 0 {
                                Err(ErrorView::ShapeMismatch)
                            } else {
                                Ok((node.outputs[0], spec_softmax(input)))
                            }
                        },
                    }
                }
            },
            ONNXOperation::Reshape => {
                if node.inputs.len() < 1 {
                    Err(ErrorView::ShapeMismatch)
                } else {
                    match spec_lookup(acts, node.inputs[0]) {
                        None => Err(ErrorView::UnknownTensor(node.inputs[0])),
                        Some(input) => {
                            if node.outputs.len() == 0 {
                                Err(ErrorView::ShapeMismatch)
                            } else {
                                Ok((node.outputs[0], input))
                            }
                        },
                    }
                }
            },
            ONNXOperation::GlobalAveragePool => {
                if node.inputs.len() < 1 {
                    Err(ErrorView::ShapeMismatch)
                } else {
                    match spec_lookup(acts, node.inputs[0]) {
                        None => Err(ErrorView::UnknownTensor(node.inputs[0])),
                        Some(input) => {
                            if input.len() == 0 {
                                Err(ErrorView::ShapeMismatch)
                            } else if node.outputs.len() == 0 {
                                Err(ErrorView::ShapeMismatch)
                            } else {
                                Ok((node.outputs[0], spec_pool(input)))
                            }
                        },
                    }
                }
            },
        },
    }
}

/// The activation table after executing `nodes` in order, starting from
/// `acts`; or the first node failure.
pub open spec fn spec_run_nodes(
    weights: Seq<(Seq<char>, Seq<i64>)>,
    acts: Seq<(Seq<char>, Seq<i64>)>,
    nodes: Seq<NodeView>,
) -> Result<Seq<(Seq<char>, Seq<i64>)>, ErrorView>
    decreases nodes.len(),
{
    if nodes.len() == 0 {
        Ok(acts)
    } else {
        match spec_node_step(weights, acts, nodes[0]) {
            Err(e) => Err(e),
            Ok(p) => spec_run_nodes(weights, acts.push(p), nodes.drop_first()),
        }
    }
}

/// The designated final tensor of a finished run: the one named `output`,
/// falling back to the most recently produced tensor when that name is
/// absent.
pub open spec fn spec_final_tensor(acts: Seq<(Seq<char>, Seq<i64>)>) -> Option<Seq<i64>> {
    match spec_lookup(acts, "output"@) {
        Some(t) => Some(t),
        None => if acts.len() == 0 {
            None
        } else {
            Some(acts.last().1)
        },
    }
}

/// The three class probabilities a whole run produces: execute the nodes
/// over the input seeded under the designated input name, locate the final
/// tensor, require at least three scores, and normalize the first three
/// with the stable softmax.
pub open spec fn spec_run_graph(
    weights: Seq<(Seq<char>, Seq<i64>)>,
    nodes: Seq<NodeView>,
    input: Seq<i64>,
) -> Result<Seq<i64>, ErrorView> {
    let acts0 = seq![("input_tensor"@, input)];
    match spec_run_nodes(weights, acts0, nodes) {
        Err(e) => Err(e),
        Ok(acts) => match spec_final_tensor(acts) {
            None => Err(ErrorView::UnknownTensor("output"@)),
            Some(t) => {
                if t.len() < 3 {
                    Err(ErrorView::ShapeMismatch)
                } else {
                    Ok(spec_softmax(seq![t[0], t[1], t[2]]))
                }
            },
        },
    }
}

/// Whether a finished run located its final tensor only through the
/// fallback: the nodes all executed, but none produced the designated
/// output name.
pub open spec fn spec_fallback_used(
    weights: Seq<(Seq<char>, Seq<i64>)>,
    nodes: Seq<NodeView>,
    input: Seq<i64>,
) -> bool {
    match spec_run_nodes(weights, seq![("input_tensor"@, input)], nodes) {
        Ok(acts) => spec_lookup(acts, "output"@) is None,
        Err(_) => false,
    }
}

/// The clamped score vector of a probability triple.
pub open spec fn spec_scores_of(p: Seq<i64>) -> RawScores
    recommends
        p.len() == 3,
{
    RawScores {
        real: spec_clamp(p[0], SCORE_MIN, SCORE_MAX),
        ai_generated: spec_clamp(p[1], SCORE_MIN, SCORE_MAX),
        deepfake: spec_clamp(p[2], SCORE_MIN, SCORE_MAX),
    }
}

/// Graph determinism: the run's outcome is a function of the weight table,
/// the node sequence and the input tensor alone, so any two results of the
/// same run are equal. No state leaks between calls.
pub proof fn lemma_graph_determinism(
    weights: Seq<(Seq<char>, Seq<i64>)>,
    nodes: Seq<NodeView>,
    input: Seq<i64>,
    r1: Result<Seq<i64>, ErrorView>,
    r2: Result<Seq<i64>, ErrorView>,
)
    requires
        r1 == spec_run_graph(weights, nodes, input),
        r2 == spec_run_graph(weights, nodes, input),
    ensures
        r1 == r2,
{
}

/// Executes a model's computation graph over per-call activation tables.
pub struct InferenceEngine {
    /// Tensors produced so far in the current run, by name.
    pub activations: TensorTable,
}

impl InferenceEngine {
    /// Creates an engine with an empty activation table.
    pub fn new() -> (r: Self)
        ensures
            r.activations@ == Seq::<(Seq<char>, Seq<i64>)>::empty(),
    {
        InferenceEngine { activations: TensorTable::new() }
    }

    /// Executes one node: resolves its inputs, applies its operation, and
    /// stores the result under the node's first output name.
    fn execute_node(&mut self, model: &VeriChainONNXModel, node: &crate::onnx::ONNXNode) -> (r:
        Result<(), CoreError>)
        ensures
            match spec_node_step(model.weights@, old(self).activations@, node@) {
                Ok(p) => r is Ok && final(self).activations@ == old(self).activations@.push(p),
                Err(ev) => r matches Err(e) && e@ == ev && final(self).activations@ == old(
                    self,
                ).activations@,
            },
    {
        let op = match node.get_operation() {
            Some(op) => op,
            None => {
                return Err(CoreError::UnsupportedOperation(node.op_type.clone()));
            },
        };
        match op {
            ONNXOperation::Conv | ONNXOperation::MatMul => {
                if node.inputs.len() < 2 {
                    return Err(CoreError::ShapeMismatch);
                }
                let input = match self.activations.get(node.inputs[0].as_str()) {
                    Some(t) => t,
                    None => {
                        return Err(CoreError::UnknownTensor(node.inputs[0].clone()));
                    },
                };
                let w = match model.weights.get(node.inputs[1].as_str()) {
                    Some(t) => t,
                    None => {
                        return Err(CoreError::UnknownTensor(node.inputs[1].clone()));
                    },
                };
                let out = if matches!(op, ONNXOperation::Conv) {
                    simplified_conv(input, w)
                } else {
                    matrix_multiply(input, w)
                };
                let out = match out {
                    Ok(v) => v,
                    Err(e) => {
                        return Err(e);
                    },
                };
                if node.outputs.len() == 0 {
                    return Err(CoreError::ShapeMismatch);
                }
                self.activations.insert(node.outputs[0].clone(), out);
                Ok(())
            },
            ONNXOperation::Add => {
                if node.inputs.len() < 2 {
                    return Err(CoreError::ShapeMismatch);
                }
                let out = {
                    let a = match self.activations.get(node.inputs[0].as_str()) {
                        Some(t) => t,
                        None => {
                            return Err(CoreError::UnknownTensor(node.inputs[0].clone()));
                        },
                    };
                    let b = match self.activations.get(node.inputs[1].as_str()) {
                        Some(t) => t,
                        None => {
                            return Err(CoreError::UnknownTensor(node.inputs[1].clone()));
                        },
                    };
                    match tensor_add(a, b) {
                        Ok(v) => v,
                        Err(e) => {
                            return Err(e);
                        },
                    }
                };
                if node.outputs.len() == 0 {
                    return Err(CoreError::ShapeMismatch);
                }
                self.activations.insert(node.outputs[0].clone(), out);
                Ok(())
            },
            ONNXOperation::Relu | ONNXOperation::Softmax | ONNXOperation::Reshape
                | ONNXOperation::GlobalAveragePool => {
                if node.inputs.len() < 1 {
                    return Err(CoreError::ShapeMismatch);
                }
                let out = {
                    let input = match self.activations.get(node.inputs[0].as_str()) {
                        Some(t) => t,
                        None => {
                            return Err(CoreError::UnknownTensor(node.inputs[0].clone()));
                        },
                    };
                    match op {
                        ONNXOperation::Relu => relu(input),
                        ONNXOperation::Softmax => softmax(input),
                        ONNXOperation::Reshape => input.clone(),
                        _ => {
                            match global_avg_pool(input) {
                                Ok(v) => v,
                                Err(e) => {
                                    return Err(e);
                                },
                            }
                        },
                    }
                };
                if node.outputs.len() == 0 {
                    return Err(CoreError::ShapeMismatch);
                }
                self.activations.insert(node.outputs[0].clone(), out);
                Ok(())
            },
        }
    }

    /// Runs the whole graph over `input` and returns the three normalized
    /// class probabilities. The outcome is exactly
    /// [`spec_run_graph`] of the model and input.
    #[verifier::loop_isolation(false)]
    pub fn run_graph(&mut self, model: &VeriChainONNXModel, input: Vec<i64>) -> (r: Result<
        Vec<i64>,
        CoreError,
    >)
        ensures
            match spec_run_graph(model.weights@, nodes_view(model.graph_nodes@), input@) {
                Ok(p) => r matches Ok(v) && v@ == p,
                Err(ev) => r matches Err(e) && e@ == ev,
            },
            spec_run_nodes(
                model.weights@,
                seq![("input_tensor"@, input@)],
                nodes_view(model.graph_nodes@),
            ) matches Ok(acts) ==> final(self).activations@ == acts,
    {
        self.activations.clear();
        self.activations.insert(String::from_str("input_tensor"), input);
        let ghost acts0 = self.activations@;
        proof {
            assert(acts0 =~= seq![("input_tensor"@, input@)]);
            assert(nodes_view(model.graph_nodes@).skip(0) =~= nodes_view(model.graph_nodes@));
        }
        let ghost nv = nodes_view(model.graph_nodes@);
        let n = model.graph_nodes.len();
        let mut i: usize = 0;
        while i < n
            invariant
                i <= n,
                n == nv.len(),
                spec_run_nodes(model.weights@, acts0, nv) == spec_run_nodes(
                    model.weights@,
                    self.activations@,
                    nv.skip(i as int),
                ),
            decreases n - i,
        {
            proof {
                assert(nv.skip(i as int)[0] == nv[i as int]);
                assert(nv[i as int] == model.graph_nodes@[i as int]@);
                assert(nv.skip(i as int).drop_first() =~= nv.skip(i + 1));
            }
            let ghost acts_before = self.activations@;
            match self.execute_node(model, &model.graph_nodes[i]) {
                Ok(()) => {},
                Err(e) => {
                    proof {
                        assert(spec_run_nodes(model.weights@, acts_before, nv.skip(i as int))
                            is Err);
                    }
                    return Err(e);
                },
            }
            i = i + 1;
        }
        proof {
            assert(nv.skip(n as int) =~= Seq::<NodeView>::empty());
        }
        let t: &Vec<i64> = match self.activations.get("output") {
            Some(t) => t,
            None => {
                match self.activations.last_tensor() {
                    Some(t) => t,
                    None => {
                        return Err(CoreError::UnknownTensor(String::from_str("output")));
                    },
                }
            },
        };
        if t.len() < 3 {
            return Err(CoreError::ShapeMismatch);
        }
        let mut scores: Vec<i64> = Vec::new();
        scores.push(t[0]);
        scores.push(t[1]);
        scores.push(t[2]);
        proof {
            assert(scores@ =~= seq![t@[0], t@[1], t@[2]]);
        }
        Ok(softmax(&scores))
    }

    /// Runs the graph and reduces the probabilities to a detection result:
    /// probabilities clamped away from certainty, the winning class decided
    /// by the fixed tie-break order, manipulated media flagged when that
    /// class wins. Timing and metadata are the caller's to fill in.
    pub fn execute_inference(&mut self, model: &VeriChainONNXModel, input: Vec<i64>) -> (r: Result<
        DetectionResult,
        CoreError,
    >)
        ensures
            match spec_run_graph(model.weights@, nodes_view(model.graph_nodes@), input@) {
                Ok(p) => r matches Ok(d) && {
                    let s = spec_scores_of(p);
                    let win = (if s.ai_generated >= s.deepfake && s.ai_generated >= s.real {
                        (s.ai_generated, PredictionLabel::AIGenerated)
                    } else if s.deepfake >= s.real {
                        (s.deepfake, PredictionLabel::Deepfake)
                    } else {
                        (s.real, PredictionLabel::Real)
                    });
                    &&& d.is_deepfake == (win.1 is Deepfake)
                    &&& d.confidence == win.0
                    &&& d.media_type is Image
                    &&& d.processing_time_ms == 0
                    &&& d.frames_analyzed is None
                    &&& if spec_fallback_used(model.weights@, nodes_view(model.graph_nodes@), input@) {
                        d.metadata matches Some(m) && m@ == "fallback_output"@
                    } else {
                        d.metadata is None
                    }
                },
                Err(ev) => r matches Err(e) && e@ == ev,
            },
    {
        let p = match self.run_graph(model, input) {
            Ok(p) => p,
            Err(e) => {
                return Err(e);
            },
        };
        // The fallback to the most recently produced tensor is deliberate
        // behavior, but it can mask a miswired graph, so it is surfaced in
        // the result's metadata.
        let used_fallback = self.activations.get("output").is_none();
        let scores = RawScores::new(p[0], p[1], p[2]);
        let (confidence, label) = scores.get_max_score_and_label();
        Ok(
            DetectionResult {
                is_deepfake: matches!(label, PredictionLabel::Deepfake),
                confidence,
                media_type: MediaType::Image,
                processing_time_ms: 0,
                frames_analyzed: None,
                metadata: if used_fallback {
                    Some(String::from_str("fallback_output"))
                } else {
                    None
                },
            },
        )
    }
}

} // verus!

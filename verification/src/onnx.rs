//! Dataflow-graph model: named weight tensors and an ordered node list.
//!
//! A model holds a table of named weight tensors derived from the artifact
//! and a sequence of operation nodes executed in declaration order. Tensor
//! tables are association lists: a later entry under the same name wins, and
//! the most recently produced tensor is the table's last entry, which gives
//! the engine's fallback lookup a deterministic meaning.

use vstd::prelude::*;

use crate::errors::{CoreError, WeightSection};
use crate::text::str_eq;
use crate::weights::{derive_section_weights, spec_derive_section};
use vstd::string::StringExecFns;

verus! {

/// Name-to-tensor association list; the view is the sequence of
/// (name characters, tensor elements) pairs in insertion order.
pub struct TensorTable {
    entries: Vec<(String, Vec<i64>)>,
}

impl View for TensorTable {
    type V = Seq<(Seq<char>, Seq<i64>)>;

    closed spec fn view(&self) -> Seq<(Seq<char>, Seq<i64>)> {
        Seq::new(self.entries@.len(), |i: int| (self.entries@[i].0@, self.entries@[i].1@))
    }
}

/// The tensor most recently inserted under `name`, if any.
pub open spec fn spec_lookup(s: Seq<(Seq<char>, Seq<i64>)>, name: Seq<char>) -> Option<Seq<i64>>
    decreases s.len(),
{
    if s.len() == 0 {
        None
    } else if s.last().0 == name {
        Some(s.last().1)
    } else {
        spec_lookup(s.drop_last(), name)
    }
}

impl TensorTable {
    /// Creates an empty table.
    pub fn new() -> (r: Self)
        ensures
            r@ == Seq::<(Seq<char>, Seq<i64>)>::empty(),
    {
        let r = TensorTable { entries: Vec::new() };
        proof {
            assert(r@ =~= Seq::<(Seq<char>, Seq<i64>)>::empty());
        }
        r
    }

    /// Number of entries.
    pub fn len(&self) -> (r: usize)
        ensures
            r == self@.len(),
    {
        self.entries.len()
    }

    /// Appends an entry; it shadows earlier entries under the same name.
    pub fn insert(&mut self, name: String, value: Vec<i64>)
        ensures
            final(self)@ == old(self)@.push((name@, value@)),
    {
        let ghost gname = name@;
        let ghost gvalue = value@;
        self.entries.push((name, value));
        proof {
            assert(self@ =~= old(self)@.push((gname, gvalue)));
        }
    }

    /// The tensor most recently inserted under `name`.
    pub fn get(&self, name: &str) -> (r: Option<&Vec<i64>>)
        ensures
            match r {
                Some(v) => spec_lookup(self@, name@) == Some(v@),
                None => spec_lookup(self@, name@) is None,
            },
    {
        let mut i: usize = self.entries.len();
        proof {
            assert(self@.take(i as int) =~= self@);
        }
        while i > 0
            invariant
                i <= self@.len(),
                spec_lookup(self@, name@) == spec_lookup(self@.take(i as int), name@),
            decreases i,
        {
            i = i - 1;
            proof {
                assert(self@.take(i + 1).drop_last() =~= self@.take(i as int));
                assert(self@.take(i + 1).last() == self@[i as int]);
            }
            if str_eq(self.entries[i].0.as_str(), name) {
                return Some(&self.entries[i].1);
            }
        }
        None
    }

    /// The name of the entry at position `i`, in insertion order.
    pub fn name_at(&self, i: usize) -> (r: &String)
        requires
            i < self@.len(),
        ensures
            r@ == self@[i as int].0,
    {
        &self.entries[i].0
    }

    /// The most recently inserted tensor, whatever its name.
    pub fn last_tensor(&self) -> (r: Option<&Vec<i64>>)
        ensures
            match r {
                Some(v) => self@.len() > 0 && v@ == self@.last().1,
                None => self@.len() == 0,
            },
    {
        if self.entries.len() == 0 {
            return None;
        }
        Some(&self.entries[self.entries.len() - 1].1)
    }

    /// Removes every entry.
    pub fn clear(&mut self)
        ensures
            final(self)@ == Seq::<(Seq<char>, Seq<i64>)>::empty(),
    {
        self.entries.clear();
        proof {
            assert(self@ =~= Seq::<(Seq<char>, Seq<i64>)>::empty());
        }
    }
}

/// The closed set of graph operations.
#[derive(Debug, Clone, Copy, PartialEq, Eq, Structural)]
pub enum ONNXOperation {
    /// Strided elementwise-weighted reduction.
    Conv,
    /// Pairwise product reduction, truncated to the shorter operand.
    MatMul,
    /// Elementwise sum of same-length tensors.
    Add,
    /// Elementwise maximum with zero.
    Relu,
    /// Numerically stable exponential normalization.
    Softmax,
    /// Identity relabeling of a tensor.
    Reshape,
    /// Reduction of a tensor to its arithmetic mean.
    GlobalAveragePool,
}

/// The operation a node's textual operation name denotes, if any.
pub open spec fn spec_operation_of(s: Seq<char>) -> Option<ONNXOperation> {
    if s == "Conv"@ {
        Some(ONNXOperation::Conv)
    } else if s == "MatMul"@ {
        Some(ONNXOperation::MatMul)
    } else if s == "Add"@ {
        Some(ONNXOperation::Add)
    } else if s == "Relu"@ {
        Some(ONNXOperation::Relu)
    } else if s == "Softmax"@ {
        Some(ONNXOperation::Softmax)
    } else if s == "Reshape"@ {
        Some(ONNXOperation::Reshape)
    } else if s == "GlobalAveragePool"@ {
        Some(ONNXOperation::GlobalAveragePool)
    } else {
        None
    }
}

/// One node of the computation graph.
#[derive(Debug, Clone)]
pub struct ONNXNode {
    /// The node's own name.
    pub name: String,
    /// Textual operation name, resolved by [`ONNXNode::get_operation`].
    pub op_type: String,
    /// Names of the tensors the node consumes.
    pub inputs: Vec<String>,
    /// Names of the tensors the node produces.
    pub outputs: Vec<String>,
    /// Named integer attributes.
    pub attributes: Vec<(String, Vec<i64>)>,
}

impl ONNXNode {
    /// Builds a node with no attributes.
    pub fn new(name: String, op_type: String, inputs: Vec<String>, outputs: Vec<String>) -> (r:
        Self)
        ensures
            r.name == name,
            r.op_type == op_type,
            r.inputs == inputs,
            r.outputs == outputs,
            r.attributes@ == Seq::<(String, Vec<i64>)>::empty(),
    {
        Self { name, op_type, inputs, outputs, attributes: Vec::new() }
    }

    /// Appends one attribute.
    pub fn add_attribute(&mut self, key: String, value: Vec<i64>)
        ensures
            final(self).attributes@ == old(self).attributes@.push((key, value)),
            final(self).name == old(self).name,
            final(self).op_type == old(self).op_type,
            final(self).inputs == old(self).inputs,
            final(self).outputs == old(self).outputs,
    {
        self.attributes.push((key, value));
    }

    /// Resolves the textual operation name to an operation.
    pub fn get_operation(&self) -> (r: Option<ONNXOperation>)
        ensures
            r == spec_operation_of(self.op_type@),
    {
        let s = self.op_type.as_str();
        if str_eq(s, "Conv") {
            Some(ONNXOperation::Conv)
        } else if str_eq(s, "MatMul") {
            Some(ONNXOperation::MatMul)
        } else if str_eq(s, "Add") {
            Some(ONNXOperation::Add)
        } else if str_eq(s, "Relu") {
            Some(ONNXOperation::Relu)
        } else if str_eq(s, "Softmax") {
            Some(ONNXOperation::Softmax)
        } else if str_eq(s, "Reshape") {
            Some(ONNXOperation::Reshape)
        } else if str_eq(s, "GlobalAveragePool") {
            Some(ONNXOperation::GlobalAveragePool)
        } else {
            None
        }
    }

    /// Whether the node carries a name, an operation name, and at least one
    /// input and one output.
    pub fn validate(&self) -> (r: bool)
        ensures
            r == (self.name@.len() > 0 && self.op_type@.len() > 0 && self.inputs@.len() > 0
                && self.outputs@.len() > 0),
    {
        !self.name.as_str().is_empty() && !self.op_type.as_str().is_empty()
            && self.inputs.len() > 0 && self.outputs.len() > 0
    }
}

/// Mathematical image of a node: its names as character sequences.
pub ghost struct NodeView {
    /// The node's own name.
    pub name: Seq<char>,
    /// Textual operation name.
    pub op: Seq<char>,
    /// Names of consumed tensors.
    pub inputs: Seq<Seq<char>>,
    /// Names of produced tensors.
    pub outputs: Seq<Seq<char>>,
}

impl View for ONNXNode {
    type V = NodeView;

    open spec fn view(&self) -> NodeView {
        NodeView {
            name: self.name@,
            op: self.op_type@,
            inputs: self.inputs@.map_values(|s: String| s@),
            outputs: self.outputs@.map_values(|s: String| s@),
        }
    }
}

/// The views of a node sequence.
pub open spec fn nodes_view(s: Seq<ONNXNode>) -> Seq<NodeView> {
    s.map_values(|n: ONNXNode| n@)
}

/// The fixed node sequence of the standard model: feature extraction,
/// classification, normalization, wired so that every node input is a
/// weight name, an earlier node's output, or the designated input tensor
/// name.
pub open spec fn spec_standard_nodes() -> Seq<NodeView> {
    seq![
        NodeView {
            name: "feature_extract"@,
            op: "Conv"@,
            inputs: seq!["input_tensor"@, "conv_weight"@],
            outputs: seq!["features"@],
        },
        NodeView {
            name: "classifier"@,
            op: "MatMul"@,
            inputs: seq!["features"@, "classifier_weight"@],
            outputs: seq!["logits"@],
        },
        NodeView {
            name: "output"@,
            op: "Softmax"@,
            inputs: seq!["logits"@],
            outputs: seq!["output"@],
        },
    ]
}

/// The weight table of the standard model derived from an artifact.
pub open spec fn spec_standard_weights(artifact: Seq<u8>) -> Seq<(Seq<char>, Seq<i64>)> {
    seq![
        (
            "conv_weight"@,
            spec_derive_section(artifact, WeightSection::FeatureExtraction)->0,
        ),
        (
            "classifier_weight"@,
            spec_derive_section(artifact, WeightSection::Classification)->0,
        ),
    ]
}

/// The dataflow-graph model: weight table plus ordered node list.
pub struct VeriChainONNXModel {
    /// Named weight tensors available to the nodes.
    pub weights: TensorTable,
    /// Nodes, executed in declaration order.
    pub graph_nodes: Vec<ONNXNode>,
    /// Expected input layout: channels, height, width.
    pub input_shape: (usize, usize, usize),
    /// Number of output classes.
    pub output_shape: usize,
}

/// The fixed structure a model derived from an artifact has: two weight
/// tensors carved from the artifact's regions, and the three-node sequence
/// feature extraction, classification, normalization, wired so that every
/// node input is a weight name, an earlier node's output, or the designated
/// input tensor name.
pub open spec fn is_standard_model(m: VeriChainONNXModel, artifact: Seq<u8>) -> bool {
    &&& spec_derive_section(artifact, WeightSection::FeatureExtraction) is Some
    &&& spec_derive_section(artifact, WeightSection::Classification) is Some
    &&& m.weights@ == spec_standard_weights(artifact)
    &&& nodes_view(m.graph_nodes@) == spec_standard_nodes()
    &&& m.input_shape == (3usize, 224usize, 224usize)
    &&& m.output_shape == 3usize
}

impl VeriChainONNXModel {
    /// Creates an empty model with the standard input layout and three
    /// output classes.
    pub fn new() -> (r: Self)
        ensures
            r.weights@ == Seq::<(Seq<char>, Seq<i64>)>::empty(),
            r.graph_nodes@ == Seq::<ONNXNode>::empty(),
            r.input_shape == (3usize, 224usize, 224usize),
            r.output_shape == 3usize,
    {
        Self {
            weights: TensorTable::new(),
            graph_nodes: Vec::new(),
            input_shape: (3, 224, 224),
            output_shape: 3,
        }
    }

    /// Adds a named weight tensor; a later weight under the same name wins.
    pub fn add_weight(&mut self, name: String, weight: Vec<i64>)
        ensures
            final(self).weights@ == old(self).weights@.push((name@, weight@)),
            final(self).graph_nodes == old(self).graph_nodes,
            final(self).input_shape == old(self).input_shape,
            final(self).output_shape == old(self).output_shape,
    {
        self.weights.insert(name, weight);
    }

    /// Appends a node to the execution order.
    pub fn add_node(&mut self, node: ONNXNode)
        ensures
            final(self).graph_nodes@ == old(self).graph_nodes@.push(node),
            final(self).weights@ == old(self).weights@,
            final(self).input_shape == old(self).input_shape,
            final(self).output_shape == old(self).output_shape,
    {
        self.graph_nodes.push(node);
    }

    /// The weight tensor most recently added under `name`.
    pub fn get_weight(&self, name: &str) -> (r: Option<&Vec<i64>>)
        ensures
            match r {
                Some(v) => spec_lookup(self.weights@, name@) == Some(v@),
                None => spec_lookup(self.weights@, name@) is None,
            },
    {
        self.weights.get(name)
    }

    /// Whether the model holds at least one weight, at least one node, and
    /// positive shapes.
    pub fn validate(&self) -> (r: bool)
        ensures
            r == (self.weights@.len() > 0 && self.graph_nodes@.len() > 0 && self.input_shape.0 > 0
                && self.output_shape > 0),
    {
        self.weights.len() > 0 && self.graph_nodes.len() > 0 && self.input_shape.0 > 0
            && self.output_shape > 0
    }

    /// Derives the standard model from the assembled artifact: the two
    /// weight tensors from their regions, then the fixed node sequence.
    /// Fails with [`CoreError::InsufficientWeights`] naming the first region
    /// that yields too few usable values.
    pub fn from_artifact(artifact: &[u8]) -> (r: Result<Self, CoreError>)
        ensures
            r is Ok <==> spec_derive_section(artifact@, WeightSection::FeatureExtraction) is Some
                && spec_derive_section(artifact@, WeightSection::Classification) is Some,
            r matches Ok(m) ==> is_standard_model(m, artifact@),
            r matches Err(e) ==> e == CoreError::InsufficientWeights(
                if spec_derive_section(artifact@, WeightSection::FeatureExtraction) is None {
                    WeightSection::FeatureExtraction
                } else {
                    WeightSection::Classification
                },
            ),
    {
        let conv_w = match derive_section_weights(artifact, WeightSection::FeatureExtraction) {
            Ok(w) => w,
            Err(e) => {
                return Err(e);
            },
        };
        let cls_w = match derive_section_weights(artifact, WeightSection::Classification) {
            Ok(w) => w,
            Err(e) => {
                return Err(e);
            },
        };
        let mut model = Self::new();
        model.add_weight(String::from_str("conv_weight"), conv_w);
        model.add_weight(String::from_str("classifier_weight"), cls_w);

        let mut conv_inputs: Vec<String> = Vec::new();
        conv_inputs.push(String::from_str("input_tensor"));
        conv_inputs.push(String::from_str("conv_weight"));
        let mut conv_outputs: Vec<String> = Vec::new();
        conv_outputs.push(String::from_str("features"));
        model.add_node(
            ONNXNode::new(
                String::from_str("feature_extract"),
                String::from_str("Conv"),
                conv_inputs,
                conv_outputs,
            ),
        );

        let mut cls_inputs: Vec<String> = Vec::new();
        cls_inputs.push(String::from_str("features"));
        cls_inputs.push(String::from_str("classifier_weight"));
        let mut cls_outputs: Vec<String> = Vec::new();
        cls_outputs.push(String::from_str("logits"));
        model.add_node(
            ONNXNode::new(
                String::from_str("classifier"),
                String::from_str("MatMul"),
                cls_inputs,
                cls_outputs,
            ),
        );

        let mut soft_inputs: Vec<String> = Vec::new();
        soft_inputs.push(String::from_str("logits"));
        let mut soft_outputs: Vec<String> = Vec::new();
        soft_outputs.push(String::from_str("output"));
        model.add_node(
            ONNXNode::new(
                String::from_str("output"),
                String::from_str("Softmax"),
                soft_inputs,
                soft_outputs,
            ),
        );
        proof {
            assert(model.weights@ =~= spec_standard_weights(artifact@));
            assert(model.graph_nodes@[0].inputs@.map_values(|s: String| s@) =~= seq![
                "input_tensor"@,
                "conv_weight"@,
            ]);
            assert(model.graph_nodes@[0].outputs@.map_values(|s: String| s@) =~= seq!["features"@]);
            assert(model.graph_nodes@[1].inputs@.map_values(|s: String| s@) =~= seq![
                "features"@,
                "classifier_weight"@,
            ]);
            assert(model.graph_nodes@[1].outputs@.map_values(|s: String| s@) =~= seq!["logits"@]);
            assert(model.graph_nodes@[2].inputs@.map_values(|s: String| s@) =~= seq!["logits"@]);
            assert(model.graph_nodes@[2].outputs@.map_values(|s: String| s@) =~= seq!["output"@]);
            assert(nodes_view(model.graph_nodes@) =~= spec_standard_nodes());
        }
        Ok(model)
    }
}

} // verus!

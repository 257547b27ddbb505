//! The graph well-formedness invariant.
//!
//! Every input name of a node must be a weight name, the output name of an
//! earlier node, or the designated input tensor name, and every node must
//! carry a supported operation and at least one output. A graph built by
//! hand can be held to this invariant before it is run; the standard model
//! derived from an artifact satisfies it by construction.

use vstd::prelude::*;

use crate::onnx::{nodes_view, spec_operation_of, NodeView, VeriChainONNXModel};
use crate::text::str_eq;
use vstd::string::StringExecFns;

verus! {

/// The set of character sequences a sequence of strings denotes.
pub open spec fn vec_names(v: Seq<String>) -> Set<Seq<char>> {
    Set::new(|n: Seq<char>| exists|i: int| 0 <= i < v.len() && #[trigger] v[i]@ == n)
}

/// The set of character sequences a sequence of character sequences holds.
pub open spec fn seq_names(v: Seq<Seq<char>>) -> Set<Seq<char>> {
    Set::new(|n: Seq<char>| v.contains(n))
}

/// Names available to the first node: every weight name plus the designated
/// input tensor name.
pub open spec fn spec_initial_names(weights: Seq<(Seq<char>, Seq<i64>)>) -> Set<Seq<char>> {
    Set::new(
        |n: Seq<char>|
            n == "input_tensor"@ || exists|i: int|
                0 <= i < weights.len() && #[trigger] weights[i].0 == n,
    )
}

/// The graph invariant from `avail` onward: each node carries a supported
/// operation and at least one output, consumes only available names, and
/// makes its outputs available to the nodes after it.
pub open spec fn spec_dag_ok_from(nodes: Seq<NodeView>, avail: Set<Seq<char>>) -> bool
    decreases nodes.len(),
{
    if nodes.len() == 0 {
        true
    } else {
        &&& spec_operation_of(nodes[0].op) is Some
        &&& nodes[0].outputs.len() > 0
        &&& forall|k: int| 0 <= k < nodes[0].inputs.len() ==> avail.contains(#[trigger] nodes[0].inputs[k])
        &&& spec_dag_ok_from(nodes.drop_first(), avail.union(seq_names(nodes[0].outputs)))
    }
}

/// The whole-model graph invariant.
pub open spec fn spec_graph_wf(m: VeriChainONNXModel) -> bool {
    spec_dag_ok_from(nodes_view(m.graph_nodes@), spec_initial_names(m.weights@))
}

/// Appending one string extends the denoted name set by its characters.
proof fn lemma_vec_names_push(v: Seq<String>, s: String)
    ensures
        vec_names(v.push(s)) == vec_names(v).insert(s@),
{
    assert forall|n: Seq<char>| vec_names(v.push(s)).contains(n) implies vec_names(v).insert(
        s@,
    ).contains(n) by {
        let i = choose|i: int| 0 <= i < v.push(s).len() && #[trigger] v.push(s)[i]@ == n;
        if i < v.len() {
            assert(v[i]@ == n);
        }
    }
    assert forall|n: Seq<char>| vec_names(v).insert(s@).contains(n) implies vec_names(
        v.push(s),
    ).contains(n) by {
        if n == s@ {
            assert(v.push(s)[v.len() as int]@ == n);
        } else {
            let i = choose|i: int| 0 <= i < v.len() && #[trigger] v[i]@ == n;
            assert(v.push(s)[i]@ == n);
        }
    }
    assert(vec_names(v.push(s)) =~= vec_names(v).insert(s@));
}

/// Scans a list of names for one equal to `s`.
fn contains_name(avail: &Vec<String>, s: &str) -> (r: bool)
    ensures
        r == vec_names(avail@).contains(s@),
{
    let mut i: usize = 0;
    while i < avail.len()
        invariant
            i <= avail@.len(),
            forall|j: int| 0 <= j < i ==> #[trigger] avail@[j]@ != s@,
        decreases avail@.len() - i,
    {
        if str_eq(avail[i].as_str(), s) {
            assert(avail@[i as int]@ == s@);
            return true;
        }
        i = i + 1;
    }
    assert(!vec_names(avail@).contains(s@)) by {
        if vec_names(avail@).contains(s@) {
            let j = choose|j: int| 0 <= j < avail@.len() && #[trigger] avail@[j]@ == s@;
        }
    }
    false
}

impl VeriChainONNXModel {
    /// Checks the graph invariant: every node input is a weight name, an
    /// earlier node's output, or the designated input tensor name; every
    /// node names a supported operation and at least one output.
    #[verifier::loop_isolation(false)]
    pub fn validate_dag(&self) -> (r: bool)
        ensures
            r == spec_graph_wf(*self),
    {
        let mut avail: Vec<String> = Vec::new();
        avail.push(String::from_str("input_tensor"));
        let mut w: usize = 0;
        while w < self.weights.len()
            invariant
                w <= self.weights@.len(),
                avail@.len() == w + 1,
                avail@[0]@ == "input_tensor"@,
                forall|j: int| 0 <= j < w ==> #[trigger] avail@[j + 1]@ == self.weights@[j].0,
            decreases self.weights@.len() - w,
        {
            avail.push(self.weights.name_at(w).clone());
            w = w + 1;
        }
        proof {
            assert forall|n: Seq<char>| vec_names(avail@).contains(n) implies spec_initial_names(
                self.weights@,
            ).contains(n) by {
                let i = choose|i: int| 0 <= i < avail@.len() && #[trigger] avail@[i]@ == n;
                if i > 0 {
                    assert(avail@[(i - 1) + 1]@ == self.weights@[i - 1].0);
                }
            }
            assert forall|n: Seq<char>| spec_initial_names(self.weights@).contains(
                n,
            ) implies vec_names(avail@).contains(n) by {
                if n == "input_tensor"@ {
                    assert(avail@[0]@ == n);
                } else {
                    let i = choose|i: int|
                        0 <= i < self.weights@.len() && #[trigger] self.weights@[i].0 == n;
                    assert(avail@[i + 1]@ == n);
                }
            }
            assert(vec_names(avail@) =~= spec_initial_names(self.weights@));
        }
        let ghost nv = nodes_view(self.graph_nodes@);
        let n = self.graph_nodes.len();
        let mut i: usize = 0;
        proof {
            assert(nv.skip(0) =~= nv);
        }
        while i < n
            invariant
                i <= n,
                n == nv.len(),
                spec_graph_wf(*self) == spec_dag_ok_from(nv.skip(i as int), vec_names(avail@)),
            decreases n - i,
        {
            proof {
                assert(nv.skip(i as int)[0] == nv[i as int]);
                assert(nv[i as int] == self.graph_nodes@[i as int]@);
                assert(nv.skip(i as int).drop_first() =~= nv.skip(i + 1));
            }
            let node = &self.graph_nodes[i];
            if node.get_operation().is_none() {
                return false;
            }
            if node.outputs.len() == 0 {
                return false;
            }
            let mut k: usize = 0;
            while k < node.inputs.len()
                invariant
                    k <= node.inputs@.len(),
                    forall|j: int|
                        0 <= j < k ==> vec_names(avail@).contains(#[trigger] node@.inputs[j]),
                decreases node.inputs@.len() - k,
            {
                if !contains_name(&avail, node.inputs[k].as_str()) {
                    proof {
                        assert(node@.inputs[k as int] == node.inputs@[k as int]@);
                    }
                    return false;
                }
                k = k + 1;
            }
            let ghost before = vec_names(avail@);
            let mut o: usize = 0;
            while o < node.outputs.len()
                invariant
                    o <= node.outputs@.len(),
                    vec_names(avail@) == before.union(seq_names(node@.outputs.take(o as int))),
                decreases node.outputs@.len() - o,
            {
                let ghost pre = avail@;
                avail.push(node.outputs[o].clone());
                proof {
                    lemma_vec_names_push(pre, node.outputs@[o as int]);
                    let taken = node@.outputs.take(o as int);
                    let taken1 = node@.outputs.take(o + 1);
                    let latest = node@.outputs[o as int];
                    assert forall|x: Seq<char>| seq_names(taken1).contains(x) implies seq_names(
                        taken,
                    ).insert(latest).contains(x) by {
                        let p = choose|p: int| 0 <= p < taken1.len() && #[trigger] taken1[p] == x;
                        if p < o {
                            assert(taken[p] == x);
                            assert(taken.contains(x));
                        }
                    }
                    assert forall|x: Seq<char>| seq_names(taken).insert(latest).contains(
                        x,
                    ) implies seq_names(taken1).contains(x) by {
                        if x == latest {
                            assert(taken1[o as int] == x);
                        } else {
                            let p = choose|p: int| 0 <= p < taken.len() && #[trigger] taken[p] == x;
                            assert(taken1[p] == x);
                        }
                    }
                    assert(seq_names(taken1) =~= seq_names(taken).insert(latest));
                    assert(vec_names(avail@) =~= before.union(
                        seq_names(node@.outputs.take(o + 1)),
                    ));
                }
                o = o + 1;
            }
            proof {
                assert(node@.outputs.take(node@.outputs.len() as int) =~= node@.outputs);
                assert(forall|k2: int|
                    0 <= k2 < node@.inputs.len() ==> before.contains(#[trigger] node@.inputs[k2]));
            }
            i = i + 1;
        }
        proof {
            assert(nv.skip(n as int) =~= Seq::<NodeView>::empty());
        }
        true
    }
}

} // verus!

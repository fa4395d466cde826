use vstd::prelude::*;

use crate::graph::Graph;
use crate::tensor::Tensor;
use crate::tensor::seq_add;
use crate::tensor::sum_fits;
use crate::tensor::zero_seq;
use crate::tensor::zeros;

verus! {

/// Why an operation constructor refused its inputs. Both kinds are fatal to
/// the construction call: the graph is left exactly as it was.
#[derive(Clone, Copy, Debug, PartialEq, Eq, Structural)]
pub enum OpError {
    /// The inputs do not both belong to the graph the operation was asked to
    /// record itself into.
    GraphMismatch,
    /// The input buffers have incompatible lengths for the operation.
    ShapeMismatch,
}

/// A recorded elementwise addition: two input tensor bindings and the output
/// tensor the constructor allocated for it.
#[derive(Clone, Copy, Debug, PartialEq, Eq, Structural)]
pub struct AddOp {
    /// First addend.
    pub input_a: Tensor,
    /// Second addend.
    pub input_b: Tensor,
    /// The operation's own output node, freshly allocated at construction.
    pub output: Tensor,
}

/// The value buffers after one `forward` of `op`: the output buffer is
/// overwritten with the elementwise sum of the two input buffers, every other
/// buffer is left alone.
pub open spec fn forward_vals(vals: Seq<Seq<i64>>, op: AddOp) -> Seq<Seq<i64>> {
    vals.update(
        op.output.node as int,
        seq_add(vals[op.input_a.node as int], vals[op.input_b.node as int]),
    )
}

/// The gradient buffers after one `backward` of `op`: the output's gradient
/// is added into the first input's gradient, then into the second input's.
/// The two accumulation steps are sequential, so an operation whose inputs
/// are the same node receives the output gradient twice.
pub open spec fn backward_grads(grads: Seq<Seq<i64>>, op: AddOp) -> Seq<Seq<i64>> {
    let a = op.input_a.node as int;
    let b = op.input_b.node as int;
    let o = op.output.node as int;
    let after_a = grads.update(a, seq_add(grads[a], grads[o]));
    after_a.update(b, seq_add(after_a[b], after_a[o]))
}

impl AddOp {
    /// Record an elementwise addition of `input_a` and `input_b` in `graph`.
    ///
    /// Both inputs must be nodes of `graph` — otherwise the call fails with
    /// `GraphMismatch`; tensors of two distinct graphs can never both pass
    /// this check — and their buffers must have equal length, otherwise it
    /// fails with `ShapeMismatch`. On failure the graph is left exactly as
    /// it was. On success the constructor allocates a fresh zero output node,
    /// appends itself to the graph's operation log, and returns itself with
    /// the output exposed.
    pub fn new(graph: &mut Graph, input_a: Tensor, input_b: Tensor) -> (r: Result<AddOp, OpError>)
        requires
            old(graph).wf(),
        ensures
            final(graph).wf(),
            final(graph).gid() == old(graph).gid(),
            r is Err ==> *final(graph) == *old(graph),
            !(old(graph).owns(input_a) && old(graph).owns(input_b)) ==> r == Err::<
                AddOp,
                OpError,
            >(OpError::GraphMismatch),
            old(graph).owns(input_a) && old(graph).owns(input_b) && old(graph).vals()[input_a.node as int].len()
                != old(graph).vals()[input_b.node as int].len() ==> r == Err::<
                AddOp,
                OpError,
            >(OpError::ShapeMismatch),
            old(graph).owns(input_a) && old(graph).owns(input_b) && old(graph).vals()[input_a.node as int].len()
                == old(graph).vals()[input_b.node as int].len() ==> {
                &&& r is Ok
                &&& r->Ok_0.input_a == input_a
                &&& r->Ok_0.input_b == input_b
                &&& r->Ok_0.output == (Tensor {
                    graph_id: old(graph).gid(),
                    node: old(graph).vals().len() as usize,
                })
                &&& final(graph).vals() == old(graph).vals().push(
                    zero_seq(old(graph).vals()[input_a.node as int].len()),
                )
                &&& final(graph).grads() == old(graph).grads().push(
                    zero_seq(old(graph).vals()[input_a.node as int].len()),
                )
                &&& final(graph).ops() == old(graph).ops().push(r->Ok_0)
                &&& final(graph).op_wf(r->Ok_0)
            },
    {
        if input_a.graph_id != graph.id() || input_b.graph_id != graph.id()
            || input_a.node >= graph.num_nodes() || input_b.node >= graph.num_nodes() {
            return Err(OpError::GraphMismatch);
        }
        let n = graph.value(input_a).len();
        if graph.value(input_b).len() != n {
            return Err(OpError::ShapeMismatch);
        }
        let output = graph.tensor(zeros(n));
        let op = AddOp { input_a, input_b, output };
        graph.register(op);
        Ok(op)
    }

    /// Forward pass: overwrite the output's value buffer with the elementwise
    /// sum of the two input value buffers. A pure function of the current
    /// input values — repeated calls with unchanged inputs rewrite the same
    /// output.
    #[verifier::loop_isolation(false)]
    pub fn forward(&self, graph: &mut Graph)
        requires
            old(graph).wf(),
            old(graph).op_wf(*self),
            sum_fits(
                old(graph).vals()[self.input_a.node as int],
                old(graph).vals()[self.input_b.node as int],
            ),
        ensures
            final(graph).wf(),
            final(graph).gid() == old(graph).gid(),
            final(graph).op_wf(*self),
            final(graph).vals() == forward_vals(old(graph).vals(), *self),
            final(graph).grads() == old(graph).grads(),
            final(graph).ops() == old(graph).ops(),
    {
        let ghost va = graph.vals()[self.input_a.node as int];
        let ghost vb = graph.vals()[self.input_b.node as int];
        let n = graph.value(self.input_a).len();
        let mut out: Vec<i64> = Vec::new();
        for i in 0..n
            invariant
                out@ == seq_add(va, vb).take(i as int),
        {
            let x = graph.value(self.input_a)[i];
            let y = graph.value(self.input_b)[i];
            out.push(x + y);
            proof {
                assert(out@ =~= seq_add(va, vb).take(i + 1));
            }
        }
        proof {
            assert(out@ =~= seq_add(va, vb));
        }
        graph.set_value(self.output, out);
    }

    /// Backward pass: add the output's gradient buffer into the first
    /// input's gradient buffer, then into the second input's — accumulating,
    /// never overwriting, so a tensor consumed by several operations sums the
    /// contributions of all of them.
    #[verifier::loop_isolation(false)]
    pub fn backward(&self, graph: &mut Graph)
        requires
            old(graph).wf(),
            old(graph).op_wf(*self),
            sum_fits(
                old(graph).grads()[self.input_a.node as int],
                old(graph).grads()[self.output.node as int],
            ),
            self.input_a.node == self.input_b.node ==> sum_fits(
                seq_add(
                    old(graph).grads()[self.input_a.node as int],
                    old(graph).grads()[self.output.node as int],
                ),
                old(graph).grads()[self.output.node as int],
            ),
            self.input_a.node != self.input_b.node ==> sum_fits(
                old(graph).grads()[self.input_b.node as int],
                old(graph).grads()[self.output.node as int],
            ),
        ensures
            final(graph).wf(),
            final(graph).gid() == old(graph).gid(),
            final(graph).op_wf(*self),
            final(graph).vals() == old(graph).vals(),
            final(graph).ops() == old(graph).ops(),
            final(graph).grads() == backward_grads(old(graph).grads(), *self),
    {
        let ghost ga = graph.grads()[self.input_a.node as int];
        let ghost go = graph.grads()[self.output.node as int];
        let n = graph.grad(self.output).len();
        let mut acc_a: Vec<i64> = Vec::new();
        for i in 0..n
            invariant
                acc_a@ == seq_add(ga, go).take(i as int),
        {
            let x = graph.grad(self.input_a)[i];
            let y = graph.grad(self.output)[i];
            acc_a.push(x + y);
            proof {
                assert(acc_a@ =~= seq_add(ga, go).take(i + 1));
            }
        }
        proof {
            assert(acc_a@ =~= seq_add(ga, go));
        }
        graph.seed_grad(self.input_a, acc_a);
        let ghost gb = graph.grads()[self.input_b.node as int];
        let ghost go2 = graph.grads()[self.output.node as int];
        let mut acc_b: Vec<i64> = Vec::new();
        for i in 0..n
            invariant
                acc_b@ == seq_add(gb, go2).take(i as int),
        {
            let x = graph.grad(self.input_b)[i];
            let y = graph.grad(self.output)[i];
            acc_b.push(x + y);
            proof {
                assert(acc_b@ =~= seq_add(gb, go2).take(i + 1));
            }
        }
        proof {
            assert(acc_b@ =~= seq_add(gb, go2));
        }
        graph.seed_grad(self.input_b, acc_b);
        proof {
            assert(graph.grads() =~= backward_grads(old(graph).grads(), *self));
        }
    }
}

impl Tensor {
    /// Operator sugar: `a.add(b, graph)` records an `AddOp` and hands back
    /// its output tensor — a convenience composition, not a separate
    /// mechanism. Errors are exactly those of `AddOp::new`.
    pub fn add(self, other: Tensor, graph: &mut Graph) -> (r: Result<Tensor, OpError>)
        requires
            old(graph).wf(),
        ensures
            final(graph).wf(),
            final(graph).gid() == old(graph).gid(),
            r is Err ==> *final(graph) == *old(graph),
            !(old(graph).owns(self) && old(graph).owns(other)) ==> r == Err::<
                Tensor,
                OpError,
            >(OpError::GraphMismatch),
            old(graph).owns(self) && old(graph).owns(other) && old(graph).vals()[self.node as int].len()
                != old(graph).vals()[other.node as int].len() ==> r == Err::<
                Tensor,
                OpError,
            >(OpError::ShapeMismatch),
            old(graph).owns(self) && old(graph).owns(other) && old(graph).vals()[self.node as int].len()
                == old(graph).vals()[other.node as int].len() ==> {
                &&& r == Ok::<Tensor, OpError>(
                    Tensor { graph_id: old(graph).gid(), node: old(graph).vals().len() as usize },
                )
                &&& final(graph).vals() == old(graph).vals().push(
                    zero_seq(old(graph).vals()[self.node as int].len()),
                )
                &&& final(graph).grads() == old(graph).grads().push(
                    zero_seq(old(graph).vals()[self.node as int].len()),
                )
                &&& final(graph).ops() == old(graph).ops().push(
                    (AddOp {
                        input_a: self,
                        input_b: other,
                        output: Tensor {
                            graph_id: old(graph).gid(),
                            node: old(graph).vals().len() as usize,
                        },
                    }),
                )
            },
    {
        match AddOp::new(graph, self, other) {
            Ok(op) => Ok(op.output),
            Err(e) => Err(e),
        }
    }
}

} // verus!

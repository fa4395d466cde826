use vstd::prelude::*;

use crate::add::AddOp;
use crate::tensor::Tensor;
use crate::tensor::zero_seq;
use crate::tensor::zeros;

verus! {

/// The record of one computation session.
///
/// The graph owns the value and gradient buffer of every node allocated in
/// it, and the append-only log of the operations recorded against it, in
/// insertion order. Operations are appended, never removed, so replaying the
/// log front to back is a forward pass over the whole session and replaying
/// it back to front is the matching backward pass. Two graphs denote the
/// same session exactly when they carry the same identity, which every
/// tensor handle of the graph also carries.
pub struct Graph {
    id: u64,
    value_bufs: Vec<Vec<i64>>,
    grad_bufs: Vec<Vec<i64>>,
    op_log: Vec<AddOp>,
}

impl Graph {
    /// Identity of this graph; tensors of the graph carry the same identity.
    pub closed spec fn gid(self) -> u64 {
        self.id
    }

    /// The value buffer of every node, in allocation order.
    pub closed spec fn vals(self) -> Seq<Seq<i64>> {
        self.value_bufs@.map_values(|v: Vec<i64>| v@)
    }

    /// The gradient buffer of every node, in allocation order.
    pub closed spec fn grads(self) -> Seq<Seq<i64>> {
        self.grad_bufs@.map_values(|v: Vec<i64>| v@)
    }

    /// The recorded operations, in insertion order.
    pub closed spec fn ops(self) -> Seq<AddOp> {
        self.op_log@
    }

    /// `t` is a node of this graph.
    pub open spec fn owns(self, t: Tensor) -> bool {
        &&& t.graph_id == self.gid()
        &&& (t.node as int) < self.vals().len()
    }

    /// A recorded operation is consistent with this graph: all three tensors
    /// are nodes of the graph, the output node was allocated after both
    /// inputs (so it aliases neither), and the three buffers have one common
    /// length.
    pub open spec fn op_wf(self, op: AddOp) -> bool {
        &&& self.owns(op.input_a)
        &&& self.owns(op.input_b)
        &&& self.owns(op.output)
        &&& op.input_a.node < op.output.node
        &&& op.input_b.node < op.output.node
        &&& self.vals()[op.input_a.node as int].len() == self.vals()[op.output.node as int].len()
        &&& self.vals()[op.input_b.node as int].len() == self.vals()[op.output.node as int].len()
    }

    /// Well-formedness of the whole session: every node's gradient buffer has
    /// the same length as its value buffer (the shape invariant), and every
    /// recorded operation is consistent with the graph.
    pub open spec fn wf(self) -> bool {
        &&& self.grads().len() == self.vals().len()
        &&& forall|n: int|
            0 <= n < self.vals().len() ==> (#[trigger] self.grads()[n]).len()
                == self.vals()[n].len()
        &&& forall|k: int| 0 <= k < self.ops().len() ==> self.op_wf(#[trigger] self.ops()[k])
    }

    /// A fresh graph with the given identity, no nodes and an empty
    /// operation log. Distinct sessions must be given distinct identities.
    pub fn new(id: u64) -> (g: Graph)
        ensures
            g.wf(),
            g.gid() == id,
            g.vals() == Seq::<Seq<i64>>::empty(),
            g.grads() == Seq::<Seq<i64>>::empty(),
            g.ops() == Seq::<AddOp>::empty(),
    {
        let g = Graph { id, value_bufs: Vec::new(), grad_bufs: Vec::new(), op_log: Vec::new() };
        proof {
            assert(g.vals() =~= Seq::<Seq<i64>>::empty());
            assert(g.grads() =~= Seq::<Seq<i64>>::empty());
            assert(g.ops() =~= Seq::<AddOp>::empty());
        }
        g
    }

    /// Runtime access to the graph identity.
    pub fn id(&self) -> (r: u64)
        ensures
            r == self.gid(),
    {
        self.id
    }

    /// How many nodes have been allocated in this graph.
    pub fn num_nodes(&self) -> (n: usize)
        ensures
            n == self.vals().len(),
    {
        self.value_bufs.len()
    }

    /// How many operations have been recorded in this graph.
    pub fn num_ops(&self) -> (n: usize)
        ensures
            n == self.ops().len(),
    {
        self.op_log.len()
    }

    /// The `k`th recorded operation, counted in insertion order.
    pub fn op_at(&self, k: usize) -> (op: AddOp)
        requires
            k < self.ops().len(),
        ensures
            op == self.ops()[k as int],
    {
        self.op_log[k]
    }

    /// Seed a tensor with external data: appends a node whose value is
    /// `value` and whose gradient is the zero buffer of matching length, and
    /// returns the handle of the new node.
    pub fn tensor(&mut self, value: Vec<i64>) -> (t: Tensor)
        requires
            old(self).wf(),
        ensures
            final(self).wf(),
            final(self).gid() == old(self).gid(),
            final(self).vals() == old(self).vals().push(value@),
            final(self).grads() == old(self).grads().push(zero_seq(value@.len())),
            final(self).ops() == old(self).ops(),
            t.graph_id == old(self).gid(),
            t.node == old(self).vals().len(),
            final(self).owns(t),
    {
        let t = Tensor { graph_id: self.id, node: self.value_bufs.len() };
        let n = value.len();
        self.value_bufs.push(value);
        self.grad_bufs.push(zeros(n));
        proof {
            assert(self.vals() =~= old(self).vals().push(value@));
            assert(self.grads() =~= old(self).grads().push(zero_seq(value@.len())));
            assert forall|k: int| 0 <= k < self.ops().len() implies self.op_wf(
                #[trigger] self.ops()[k],
            ) by {
                assert(old(self).op_wf(old(self).ops()[k]));
            }
        }
        t
    }

    /// The value buffer of node `t`.
    pub fn value(&self, t: Tensor) -> (v: &Vec<i64>)
        requires
            self.owns(t),
        ensures
            v@ == self.vals()[t.node as int],
    {
        &self.value_bufs[t.node]
    }

    /// The gradient buffer of node `t`.
    pub fn grad(&self, t: Tensor) -> (v: &Vec<i64>)
        requires
            self.wf(),
            self.owns(t),
        ensures
            v@ == self.grads()[t.node as int],
    {
        &self.grad_bufs[t.node]
    }

    /// Overwrite the value buffer of node `t`, keeping its length. Only
    /// operations write values, so this stays inside the crate.
    pub(crate) fn set_value(&mut self, t: Tensor, v: Vec<i64>)
        requires
            old(self).wf(),
            old(self).owns(t),
            v@.len() == old(self).vals()[t.node as int].len(),
        ensures
            final(self).wf(),
            final(self).gid() == old(self).gid(),
            final(self).vals() == old(self).vals().update(t.node as int, v@),
            final(self).grads() == old(self).grads(),
            final(self).ops() == old(self).ops(),
    {
        self.value_bufs.set(t.node, v);
        proof {
            assert(self.vals() =~= old(self).vals().update(t.node as int, v@));
            assert forall|k: int| 0 <= k < self.ops().len() implies self.op_wf(
                #[trigger] self.ops()[k],
            ) by {
                assert(old(self).op_wf(old(self).ops()[k]));
            }
        }
    }

    /// Overwrite the gradient buffer of node `t`, keeping its length. The
    /// driver uses this to seed the final output's gradient before a backward
    /// pass; `backward` uses it to write accumulated gradients back.
    pub fn seed_grad(&mut self, t: Tensor, g: Vec<i64>)
        requires
            old(self).wf(),
            old(self).owns(t),
            g@.len() == old(self).grads()[t.node as int].len(),
        ensures
            final(self).wf(),
            final(self).gid() == old(self).gid(),
            final(self).vals() == old(self).vals(),
            final(self).grads() == old(self).grads().update(t.node as int, g@),
            final(self).ops() == old(self).ops(),
    {
        self.grad_bufs.set(t.node, g);
        proof {
            assert(self.grads() =~= old(self).grads().update(t.node as int, g@));
            assert forall|k: int| 0 <= k < self.ops().len() implies self.op_wf(
                #[trigger] self.ops()[k],
            ) by {
                assert(old(self).op_wf(old(self).ops()[k]));
            }
        }
    }

    /// Append an operation to the log. Constructors call this only after
    /// their membership and shape checks have passed, so every recorded
    /// operation is consistent with the graph.
    pub(crate) fn register(&mut self, op: AddOp)
        requires
            old(self).wf(),
            old(self).op_wf(op),
        ensures
            final(self).wf(),
            final(self).gid() == old(self).gid(),
            final(self).vals() == old(self).vals(),
            final(self).grads() == old(self).grads(),
            final(self).ops() == old(self).ops().push(op),
    {
        self.op_log.push(op);
        proof {
            assert forall|k: int| 0 <= k < self.ops().len() implies self.op_wf(
                #[trigger] self.ops()[k],
            ) by {
                if k < old(self).ops().len() {
                    assert(old(self).op_wf(old(self).ops()[k]));
                } else {
                    assert(self.ops()[k] == op);
                }
            }
        }
    }
}

} // verus!

use vstd::prelude::*;

use crate::add::AddOp;
use crate::add::backward_grads;
use crate::add::forward_vals;
use crate::graph::Graph;
use crate::tensor::Tensor;
use crate::tensor::seq_add;

verus! {

/// Shape invariant: in a well-formed graph, every node's gradient buffer has
/// the same length as its value buffer. Every constructor and every pass
/// ensures `wf`, so this holds after construction and after each `forward`
/// and `backward` call.
pub proof fn lemma_shape_invariant(g: Graph, t: Tensor)
    requires
        g.wf(),
        g.owns(t),
    ensures
        g.grads()[t.node as int].len() == g.vals()[t.node as int].len(),
{
}

/// Graph-membership invariant: two tensors that carry distinct graph
/// identities can never both be nodes of one graph, so an operation
/// constructor given tensors of two distinct graphs always refuses them with
/// `GraphMismatch` (see the `ensures` of `AddOp::new`).
pub proof fn lemma_graph_mismatch(g: Graph, a: Tensor, b: Tensor)
    requires
        a.graph_id != b.graph_id,
    ensures
        !(g.owns(a) && g.owns(b)),
{
}

/// Idempotent forward: running a recorded operation's forward step twice on
/// unchanged inputs leaves the value buffers exactly as after the first run.
/// (`forward` ensures that the value buffers become `forward_vals` of their
/// old state.)
pub proof fn lemma_forward_idempotent(g: Graph, op: AddOp)
    requires
        g.wf(),
        g.op_wf(op),
    ensures
        forward_vals(forward_vals(g.vals(), op), op) == forward_vals(g.vals(), op),
{
    let v0 = g.vals();
    let a = op.input_a.node as int;
    let b = op.input_b.node as int;
    let o = op.output.node as int;
    let v1 = forward_vals(v0, op);
    assert(v1[a] == v0[a]);
    assert(v1[b] == v0[b]);
    assert(forward_vals(v1, op) =~= v1);
}

/// Insertion-order replay: for a recorded chain `c = a + b; d = c + a`,
/// running the two operations' forward steps in insertion order leaves in
/// `d` exactly the value of the direct evaluation `(a + b) + a` of the
/// original input buffers.
pub proof fn lemma_insertion_order_replay(g: Graph, op1: AddOp, op2: AddOp)
    requires
        g.wf(),
        g.op_wf(op1),
        g.op_wf(op2),
        op2.input_a == op1.output,
        op2.input_b == op1.input_a,
        op1.output.node < op2.output.node,
    ensures
        forward_vals(forward_vals(g.vals(), op1), op2)[op2.output.node as int] == seq_add(
            seq_add(
                g.vals()[op1.input_a.node as int],
                g.vals()[op1.input_b.node as int],
            ),
            g.vals()[op1.input_a.node as int],
        ),
{
    let v0 = g.vals();
    let a = op1.input_a.node as int;
    let c = op1.output.node as int;
    let d = op2.output.node as int;
    let v1 = forward_vals(v0, op1);
    assert(v1[c] == seq_add(v0[a], v0[op1.input_b.node as int]));
    assert(v1[a] == v0[a]);
    assert(forward_vals(v1, op2)[d] == seq_add(v1[c], v1[a]));
}

/// Reverse-order backward: for the recorded chain `c = a + b; d = c + a`
/// with distinct leaves `a` and `b`, running the two operations' backward
/// steps in reverse insertion order accumulates the output gradient into `a`
/// twice (once through `c`, once directly) and into `b` once:
/// `a.grad` gains `d.grad + (c.grad + d.grad)` and `b.grad` gains
/// `c.grad + d.grad` over the seeded buffers. With zero-seeded `a`, `b`, `c`
/// and `d.grad` seeded to ones, that is twice one for `a` and once one for
/// `b`.
pub proof fn lemma_reverse_order_backward(g: Graph, op1: AddOp, op2: AddOp)
    requires
        g.wf(),
        g.op_wf(op1),
        g.op_wf(op2),
        op2.input_a == op1.output,
        op2.input_b == op1.input_a,
        op1.output.node < op2.output.node,
        op1.input_a.node != op1.input_b.node,
    ensures
        backward_grads(backward_grads(g.grads(), op2), op1)[op1.input_a.node as int] == seq_add(
            seq_add(
                g.grads()[op1.input_a.node as int],
                g.grads()[op2.output.node as int],
            ),
            seq_add(
                g.grads()[op1.output.node as int],
                g.grads()[op2.output.node as int],
            ),
        ),
        backward_grads(backward_grads(g.grads(), op2), op1)[op1.input_b.node as int] == seq_add(
            g.grads()[op1.input_b.node as int],
            seq_add(
                g.grads()[op1.output.node as int],
                g.grads()[op2.output.node as int],
            ),
        ),
{
    let g0 = g.grads();
    let a = op1.input_a.node as int;
    let b = op1.input_b.node as int;
    let c = op1.output.node as int;
    let d = op2.output.node as int;
    let g1 = backward_grads(g0, op2);
    assert(g1[c] == seq_add(g0[c], g0[d]));
    assert(g1[a] == seq_add(g0[a], g0[d]));
    assert(g1[b] == g0[b]);
    let g2 = backward_grads(g1, op1);
    assert(g2[a] == seq_add(g1[a], g1[c]));
    assert(g2[b] == seq_add(g1[b], g1[c]));
}

} // verus!

use vstd::prelude::*;

verus! {

/// A handle to one node of a computation graph.
///
/// The node's value and gradient buffers live in the owning
/// [`crate::graph::Graph`]; the handle records the identity of that graph
/// (`graph_id`) and the node's slot in the graph's buffers (`node`). Handles
/// are produced by `Graph::tensor` and by operation constructors, which bind
/// each fresh node to the graph that allocated it.
#[derive(Clone, Copy, Debug, PartialEq, Eq, Structural)]
pub struct Tensor {
    /// Identity of the owning graph.
    pub graph_id: u64,
    /// Index of this node inside the owning graph's buffers.
    pub node: usize,
}

/// The all-zero buffer of length `n`.
pub open spec fn zero_seq(n: nat) -> Seq<i64> {
    Seq::new(n, |i: int| 0i64)
}

/// `v` fits in a 64-bit signed machine word.
pub open spec fn fits_i64(v: int) -> bool {
    i64::MIN <= v <= i64::MAX
}

/// Elementwise sum of two buffers; defined over the length of `x`.
pub open spec fn seq_add(x: Seq<i64>, y: Seq<i64>) -> Seq<i64> {
    Seq::new(x.len(), |i: int| (x[i] + y[i]) as i64)
}

/// The buffers have equal length and every elementwise sum fits in an `i64`.
pub open spec fn sum_fits(x: Seq<i64>, y: Seq<i64>) -> bool {
    &&& x.len() == y.len()
    &&& forall|i: int| #![trigger x[i]] 0 <= i < x.len() ==> fits_i64(x[i] + y[i])
}

/// A zero-initialized buffer, as used for fresh gradients and for the values
/// of operation-allocated output tensors.
pub fn zeros(n: usize) -> (v: Vec<i64>)
    ensures
        v@ == zero_seq(n as nat),
{
    let mut v: Vec<i64> = Vec::new();
    let mut i: usize = 0;
    while i < n
        invariant
            i <= n,
            v@ == zero_seq(i as nat),
        decreases n - i,
    {
        v.push(0);
        i = i + 1;
        proof {
            assert(v@ =~= zero_seq(i as nat));
        }
    }
    v
}

} // verus!

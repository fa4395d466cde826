use autograd::AddOp;
use autograd::Graph;
use autograd::OpError;

#[test]
fn addition_forward() {
    let mut g = Graph::new(1);
    let a = g.tensor(vec![1, 2, 3]);
    let b = g.tensor(vec![10, 20, 30]);
    let op = AddOp::new(&mut g, a, b).unwrap();
    op.forward(&mut g);
    assert_eq!(g.value(op.output).clone(), vec![11, 22, 33]);
}

#[test]
fn forward_idempotent() {
    let mut g = Graph::new(1);
    let a = g.tensor(vec![4, -5, 6]);
    let b = g.tensor(vec![1, 1, -1]);
    let op = AddOp::new(&mut g, a, b).unwrap();
    op.forward(&mut g);
    let first = g.value(op.output).clone();
    op.forward(&mut g);
    assert_eq!(g.value(op.output).clone(), first);
    assert_eq!(first, vec![5, -4, 5]);
}

#[test]
fn backward_accumulates() {
    let mut g = Graph::new(1);
    let a = g.tensor(vec![1, 2, 3]);
    let b = g.tensor(vec![10, 20, 30]);
    let op = AddOp::new(&mut g, a, b).unwrap();
    g.seed_grad(op.output, vec![1, 1, 1]);
    op.backward(&mut g);
    assert_eq!(g.grad(a).clone(), vec![1, 1, 1]);
    assert_eq!(g.grad(b).clone(), vec![1, 1, 1]);
    op.backward(&mut g);
    assert_eq!(g.grad(a).clone(), vec![2, 2, 2]);
    assert_eq!(g.grad(b).clone(), vec![2, 2, 2]);
}

#[test]
fn graph_mismatch_two_graphs() {
    let mut g1 = Graph::new(1);
    let mut g2 = Graph::new(2);
    let a = g1.tensor(vec![1, 2, 3]);
    let b = g2.tensor(vec![10, 20, 30]);
    assert_eq!(AddOp::new(&mut g1, a, b), Err(OpError::GraphMismatch));
    assert_eq!(AddOp::new(&mut g2, a, b), Err(OpError::GraphMismatch));
    assert_eq!(g1.num_ops(), 0);
    assert_eq!(g2.num_ops(), 0);
}

#[test]
fn graph_mismatch_precedes_shape_mismatch() {
    let mut g1 = Graph::new(1);
    let mut g2 = Graph::new(2);
    let a = g1.tensor(vec![1, 2]);
    let b = g2.tensor(vec![10, 20, 30]);
    assert_eq!(AddOp::new(&mut g1, a, b), Err(OpError::GraphMismatch));
}

#[test]
fn shape_mismatch_unequal_lengths() {
    let mut g = Graph::new(1);
    let a = g.tensor(vec![1, 2]);
    let b = g.tensor(vec![10, 20, 30]);
    assert_eq!(AddOp::new(&mut g, a, b), Err(OpError::ShapeMismatch));
    assert_eq!(g.num_ops(), 0);
    assert_eq!(g.num_nodes(), 2);
}

#[test]
fn shape_invariant_after_passes() {
    let mut g = Graph::new(1);
    let a = g.tensor(vec![1, 2, 3]);
    let b = g.tensor(vec![10, 20, 30]);
    assert_eq!(g.value(a).len(), g.grad(a).len());
    assert_eq!(g.value(b).len(), g.grad(b).len());
    let op = AddOp::new(&mut g, a, b).unwrap();
    assert_eq!(g.value(op.output).len(), g.grad(op.output).len());
    op.forward(&mut g);
    g.seed_grad(op.output, vec![1, 1, 1]);
    op.backward(&mut g);
    assert_eq!(g.value(a).len(), g.grad(a).len());
    assert_eq!(g.value(b).len(), g.grad(b).len());
    assert_eq!(g.value(op.output).len(), g.grad(op.output).len());
}

#[test]
fn insertion_order_replay() {
    let mut g = Graph::new(1);
    let va = vec![1, 2, 3];
    let vb = vec![10, 20, 30];
    let a = g.tensor(va.clone());
    let b = g.tensor(vb.clone());
    let c = a.add(b, &mut g).unwrap();
    let d = c.add(a, &mut g).unwrap();
    assert_eq!(g.num_ops(), 2);
    for k in 0..g.num_ops() {
        let op = g.op_at(k);
        op.forward(&mut g);
    }
    let mut direct: Vec<i64> = Vec::new();
    for i in 0..va.len() {
        direct.push((va[i] + vb[i]) + va[i]);
    }
    assert_eq!(g.value(d).clone(), direct);
    assert_eq!(g.value(d).clone(), vec![12, 24, 36]);
    assert_eq!(g.value(c).clone(), vec![11, 22, 33]);
}

#[test]
fn reverse_order_backward() {
    let mut g = Graph::new(1);
    let a = g.tensor(vec![1, 2, 3]);
    let b = g.tensor(vec![10, 20, 30]);
    let c = a.add(b, &mut g).unwrap();
    let d = c.add(a, &mut g).unwrap();
    for k in 0..g.num_ops() {
        let op = g.op_at(k);
        op.forward(&mut g);
    }
    g.seed_grad(d, vec![1, 1, 1]);
    let mut k = g.num_ops();
    while k > 0 {
        k -= 1;
        let op = g.op_at(k);
        op.backward(&mut g);
    }
    assert_eq!(g.grad(a).clone(), vec![2, 2, 2]);
    assert_eq!(g.grad(b).clone(), vec![1, 1, 1]);
    assert_eq!(g.grad(c).clone(), vec![1, 1, 1]);
}

#[test]
fn operator_sugar_matches_constructor() {
    let mut g1 = Graph::new(1);
    let a1 = g1.tensor(vec![5, 6]);
    let b1 = g1.tensor(vec![7, 8]);
    let out1 = a1.add(b1, &mut g1).unwrap();
    let mut g2 = Graph::new(1);
    let a2 = g2.tensor(vec![5, 6]);
    let b2 = g2.tensor(vec![7, 8]);
    let op2 = AddOp::new(&mut g2, a2, b2).unwrap();
    assert_eq!(out1, op2.output);
    g1.op_at(0).forward(&mut g1);
    op2.forward(&mut g2);
    assert_eq!(g1.value(out1).clone(), g2.value(op2.output).clone());
    assert_eq!(g1.value(out1).clone(), vec![12, 14]);
}

#[test]
fn operator_sugar_reports_errors() {
    let mut g1 = Graph::new(1);
    let mut g2 = Graph::new(2);
    let a = g1.tensor(vec![1]);
    let b = g2.tensor(vec![2]);
    assert_eq!(a.add(b, &mut g1), Err(OpError::GraphMismatch));
    let c = g1.tensor(vec![1, 2]);
    assert_eq!(a.add(c, &mut g1), Err(OpError::ShapeMismatch));
}

#[test]
fn same_tensor_as_both_inputs() {
    let mut g = Graph::new(1);
    let a = g.tensor(vec![3, 4]);
    let op = AddOp::new(&mut g, a, a).unwrap();
    op.forward(&mut g);
    assert_eq!(g.value(op.output).clone(), vec![6, 8]);
    g.seed_grad(op.output, vec![1, 1]);
    op.backward(&mut g);
    assert_eq!(g.grad(a).clone(), vec![2, 2]);
}

#[test]
fn empty_buffers() {
    let mut g = Graph::new(1);
    let a = g.tensor(Vec::new());
    let b = g.tensor(Vec::new());
    let op = AddOp::new(&mut g, a, b).unwrap();
    op.forward(&mut g);
    op.backward(&mut g);
    assert_eq!(g.value(op.output).len(), 0);
    assert_eq!(g.grad(a).len(), 0);
}

#[test]
fn log_keeps_insertion_order() {
    let mut g = Graph::new(9);
    let a = g.tensor(vec![1]);
    let b = g.tensor(vec![2]);
    let op1 = AddOp::new(&mut g, a, b).unwrap();
    let op2 = AddOp::new(&mut g, op1.output, a).unwrap();
    assert_eq!(g.num_ops(), 2);
    assert_eq!(g.op_at(0), op1);
    assert_eq!(g.op_at(1), op2);
    assert_eq!(op1.input_a, a);
    assert_eq!(op1.input_b, b);
    assert_eq!(op2.input_a, op1.output);
}

#[test]
fn seeding_overwrites_then_backward_accumulates() {
    let mut g = Graph::new(1);
    let a = g.tensor(vec![1, 1]);
    let b = g.tensor(vec![2, 2]);
    let op = AddOp::new(&mut g, a, b).unwrap();
    g.seed_grad(op.output, vec![5, 7]);
    assert_eq!(g.grad(op.output).clone(), vec![5, 7]);
    g.seed_grad(op.output, vec![3, 4]);
    assert_eq!(g.grad(op.output).clone(), vec![3, 4]);
    op.backward(&mut g);
    assert_eq!(g.grad(a).clone(), vec![3, 4]);
    assert_eq!(g.grad(b).clone(), vec![3, 4]);
}

#[test]
fn zero_initialized_output_and_grads() {
    let mut g = Graph::new(1);
    let a = g.tensor(vec![1, 2]);
    let b = g.tensor(vec![3, 4]);
    let op = AddOp::new(&mut g, a, b).unwrap();
    assert_eq!(g.value(op.output).clone(), vec![0, 0]);
    assert_eq!(g.grad(op.output).clone(), vec![0, 0]);
    assert_eq!(g.grad(a).clone(), vec![0, 0]);
    assert_eq!(g.grad(b).clone(), vec![0, 0]);
}

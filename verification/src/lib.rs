//! Computational-graph core of a small reverse-mode automatic-differentiation
//! engine.
//!
//! A [`graph::Graph`] owns, for one computation session, the value and
//! gradient buffers of every node and the append-only log of recorded
//! operations. A [`tensor::Tensor`] is a handle to one node; an
//! [`add::AddOp`] is a recorded elementwise addition with two input handles
//! and one output handle. An external driver evaluates the graph by calling
//! `forward` on every recorded operation in insertion order, then seeds the
//! final output's gradient and calls `backward` in reverse insertion order,
//! which accumulates gradients into the inputs.

pub mod add;
pub mod graph;
pub mod laws;
pub mod tensor;

pub use crate::add::AddOp;
pub use crate::add::OpError;
pub use crate::graph::Graph;
pub use crate::tensor::Tensor;

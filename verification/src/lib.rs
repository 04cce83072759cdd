//! Composable synthetic-input actions.
//!
//! A caller describes input actions (press a key, move the pointer, scroll)
//! as plain values, composes them into trees with `Sequence` and `AndThen`
//! combinators, and dispatches a tree against a chosen backend. Backends
//! declare which action shapes they support; dispatch fails fast on an
//! unsupported shape and otherwise drives every leaf, in traversal order,
//! into the backend's `simulate` method.

pub mod combinator;
pub mod common_inputs;
pub mod control_flow;
pub mod input_event;
pub mod simulator;
pub mod simulators;

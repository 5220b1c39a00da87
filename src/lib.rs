//! Per-transaction tracing on top of an execution engine with an attachable inspector.
//!
//! The engine is described by the traits of [`evm`]; the tracers of [`tracing`] harvest the
//! inspector after each transaction and install a fresh copy of a template captured once.
pub mod evm;
pub mod tracing;

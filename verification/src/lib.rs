//! Composable operation-based CRDTs.
//!
//! A composite replicated object owns a vector clock and a set of declared
//! fields, each field itself an operation-based CRDT. One operation envelope
//! carries a causal identifier (a dot) together with an optional
//! sub-operation per field; application is causally gated and idempotent,
//! and validation reports the first invalid sub-operation without mutating
//! any state.

pub mod clock;
pub mod cmrdt;
pub mod composite;
pub mod composite3;
pub mod fields;

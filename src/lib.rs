//! A minimal contract unit: one entry point that answers every call with the
//! fixed symbol `Hello`, and a harness that builds a sandboxed ledger
//! environment for exercising it.
pub mod contract;
pub mod harness;
pub mod host;

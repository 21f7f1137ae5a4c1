//! Compute-unit estimation and budgeting for ledger transactions.
//!
//! The library holds the decisions around a local batch execution and a
//! remote simulation: how each execution outcome becomes a result record,
//! how records and simulated counts become estimates, and how an estimate
//! becomes a compute-unit limit instruction placed at the front of a message.
pub mod compute_budget;
pub mod estimate;
pub mod message;
pub mod return_struct;
pub mod rollup_channel;
pub mod text;

pub use return_struct::ReturnStruct;

//! Supervision of one containerized blockchain daemon.
//!
//! The library holds every decision of the supervisor as plain functions with
//! contracts: which requests an operation puts to the container engine and in
//! what order, what each reply of the engine leads to, how the daemon's
//! diagnostic output becomes a block height, and which heights the polling
//! loop reports. Talking to the engine is left to the caller, who performs
//! each request and hands the reply back.

pub mod engine;
pub mod error;
pub mod node;
pub mod output;
pub mod poll;

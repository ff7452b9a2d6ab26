//! Core of a payment switch: a canonical per-attempt data model, the
//! per-(connector, flow) integration contract, status normalization with a
//! challenge-loop guard, and the pure parts of the execution orchestrator.
//!
//! Connector transport and serialization live outside this library;
//! everything here is a function from plain values to plain values, with its
//! behaviour stated in contracts.

pub mod airwallex;
pub mod contract;
pub mod currency;
pub mod opayo;
pub mod orchestrator;
pub mod types;

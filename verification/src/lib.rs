//! Conformance harness core for a remote session-orchestration service.
//!
//! The crate holds the decisions of the harness: how requests are addressed,
//! how replies are read, what each scenario asks of the service and in which
//! order, and how results are tallied. Network traffic, timers and printing
//! belong to the program that drives these functions.

pub mod client;
pub mod fanout;
pub mod hygiene;
pub mod json;
pub mod outcome;
pub mod runner;
pub mod scenario;
pub mod session;
pub mod status;
pub mod suite;
pub mod text;
pub mod verdicts;

//! File-level multi-output technology re-mapping: the decisions, texts and
//! reports of the engine.
//!
//! A re-mapping takes a netlist and a cell library, runs a mapper once as a
//! single-output baseline and once with multi-output cells, has the result
//! checked against the input, and reports how the numbers of cells and the
//! area changed. Running programs, reading files and floating-point arithmetic
//! are left to the caller, whom a [`session::Session`] tells what to do next.

pub mod cli;
pub mod contract;
pub mod job;
pub mod json;
pub mod laws;
pub mod report;
pub mod session;
pub mod stats;
pub mod text;
pub mod tools;

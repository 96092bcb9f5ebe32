//! Fills a portable storage device down to a chosen amount of free space.
//!
//! The library holds the decisions: how large the filler file must be, how it
//! is produced chunk by chunk, how it is named, and the workflow that drives a
//! device from selection to the final report. Device transport, prompts and
//! file writing are done by the caller, which feeds the results back in.
pub mod error;
pub mod sizing;
pub mod filler;
pub mod quantity;
pub mod naming;
pub mod workflow;
pub mod device;

//! A line-oriented stream processor: a user script runs against each line of
//! an input stream, with one variable scope that persists across lines and an
//! optional pair of bracket scripts run once before and once after the stream.
//!
//! The library holds the processor's state machine, the schedule of program
//! runs it follows, the error taxonomy and the rules that combine the stages'
//! outcomes. Reading, writing and threads are left to the caller.

pub mod error;
pub mod schedule;
pub mod engine;
pub mod processor;
pub mod pipeline;
pub mod output;

//! Filtered streaming extraction of binary image payloads.
//!
//! The library holds the decision logic of the pipeline: composing a
//! parameterized query from optional filters, deriving a filename for each
//! record, and the fault-isolating orchestration step that turns stream items
//! into write plans and tallies successes. All I/O (database, filesystem)
//! stays with the caller, which hands plain values in and out.

pub mod fs_model;
pub mod models;
pub mod persist;
pub mod pipeline;
pub mod query;
pub mod run_model;

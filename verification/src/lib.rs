//! Decision logic for a command-line tool that creates or resumes a live
//! prediction (a multi-outcome poll) on a streaming platform, asks the
//! operator to pick a winning outcome or cancel, and ends the prediction.
//!
//! Everything here is pure: argument validation, the active-prediction
//! lookup filter, the create-or-reuse plan, the selection menu, the mapping
//! from a menu selection to an end-prediction request, and the wording of
//! the final status line. The surrounding binary performs the HTTP calls
//! and the terminal prompt and feeds their results in as plain values.

pub mod args;
pub mod menu;
pub mod prediction;
pub mod report;
pub mod text;

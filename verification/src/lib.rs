//! Aggregation of the properties of a Pomodoro timer service into one
//! consistent snapshot, and the status line written for each change.

pub mod json;
pub mod properties;
pub mod span;
pub mod state;
pub mod supervisor;

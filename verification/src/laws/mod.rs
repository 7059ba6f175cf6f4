//! What the operations of the library are for.
//!
//! Each law relates what goes into an operation to what comes out of it, in terms of the fields of
//! both.

pub mod admission;
pub mod configuration;
pub mod reconciliation;
pub mod scenarios;
pub mod tasks;
pub mod texts;
pub mod upgrade;
pub mod values;
pub mod workloads;

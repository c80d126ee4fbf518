//! Decisions of the Linux portal / EIS zero-input connectivity check.

pub mod contract;
pub mod request;
pub mod start;
pub mod paths;
pub mod deadline;
pub mod verify;
pub mod environment;
pub mod runtime;

//! The fixed local IPC endpoints: names, budgets, errors, and the decisions of
//! bounded reads and writes.

pub mod endpoint;
pub mod write;
pub mod read;
pub mod connect;
pub mod identity;

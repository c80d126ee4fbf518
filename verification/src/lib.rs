//! Verified decision logic of the desktop-automation toolkit: the Linux portal
//! connectivity check, the app facade routing rules, the browser-session broker
//! protocol decisions and the fixed local IPC endpoint rules.

pub mod std_specs;
pub mod text;
pub mod clock;
pub mod json;
pub mod error;
pub mod request;
pub mod opaque_id;
pub mod capabilities;
pub mod app;
pub mod portal;
pub mod broker;
pub mod ipc;
pub mod adapters;

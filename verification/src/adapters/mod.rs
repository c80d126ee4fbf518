//! The desktop and browser adapters: their operation checks, argument rules
//! and key names.

pub mod keys;
pub mod desktop;
pub mod browser;
pub mod desktop_layout;
pub mod desktop_input;
pub mod desktop_session;

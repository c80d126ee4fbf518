//! Routing and projection rules of the app facade and its providers.

pub mod error_codes;
pub mod session;
pub mod facade;
pub mod routing;
pub mod descriptor;
pub mod providers;
pub mod desktop;
pub mod browser_session;
pub mod window_descriptors;
pub mod sanitize;
pub mod discovery;
pub mod facade_results;
pub mod provider_set;
pub mod facade_run;

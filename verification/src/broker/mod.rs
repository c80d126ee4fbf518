//! Decisions of the browser-session broker client: the request frames it
//! writes, the exchange it runs over one or more connections, and the public
//! results it projects from the broker's final responses.

pub mod protocol;
pub mod json_text;
pub mod request;
pub mod response;
pub mod exchange;
pub mod machine;
pub mod results;
pub mod laws;
pub mod connect;

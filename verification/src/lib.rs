//! Verified core of a GitHub notifications client: URL rules, request
//! construction, response interpretation and the screen state machine.

pub mod text;
pub mod api;
pub mod credentials;
pub mod screens;

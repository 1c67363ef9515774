//! Client for the REST and WebSocket APIs of a Mattermost instance.
//!
//! The library holds the logic of a session: authentication data, the
//! instance URL and the URLs derived from it, the requests each endpoint
//! issues, how responses are classified, and the event channel's state
//! machine. Sending requests and moving WebSocket frames is left to the
//! caller, which hands what happened back to the functions here.
//!
//! To start, create an `AuthenticationData` from a login id and password or
//! from a personal access token, and pass it with the instance's URL to
//! `Mattermost::new`.

pub mod client;
pub mod errors;
pub mod json;
pub mod models;
pub mod prelude;
pub mod request;
pub mod socket;
pub mod text;
pub mod web_url;

/// Re-exported since WebSocket events carry untyped data.
pub use serde_json::Value;

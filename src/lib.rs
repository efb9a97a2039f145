//! Readiness checks and model discovery for a local LM Studio server.
//!
//! - `json`: a plain model of JSON documents, read through serde_json.
//! - `error`: the error taxonomy and its messages.
//! - `client`: the configuration, the server's URL, and what the health check
//!   and the model listing make of the server's answers.
//! - `locate`: finding the `lms` executable.
//! - `ready`: the readiness flow as a state machine that its caller drives.
pub mod client;
pub mod error;
pub mod json;
pub mod locate;
pub mod ready;

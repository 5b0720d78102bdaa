//! Submission assembly and the upload protocol.
pub mod language;
pub mod error;
pub mod wire;
pub mod resolve;
pub mod config;
pub mod client;
pub mod laws;
pub mod session;

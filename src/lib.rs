//! Decoding of proxy subscriptions: payload decoding, per-line scheme
//! dispatch and per-protocol parsing into typed proxy configurations.

pub mod batch;
pub mod config;
pub mod dispatch;
pub mod json;
pub mod laws;
pub mod pairs;
pub mod payload;
pub mod protocols;
pub mod table;
pub mod text;
pub mod uri;

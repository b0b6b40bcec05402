//! Verified core of the ArtyCon overlay client: token-fragment parsing,
//! token-at-rest encryption framing, API error mapping, the event-stream
//! reconnection policy and the small text encoders they rest on.

pub mod text;
pub mod json;
pub mod api;
pub mod content;
pub mod settings;

//! Client-side bridge to a local token-generation service: decoding of the
//! service's callback events, reassembly of response items, and encoding of
//! conversations and tool manifests.

pub mod cli;
pub mod client;
pub mod config;
pub mod decoder;
pub mod event;
pub mod handshake;
pub mod harmony;
pub mod items;
pub mod json;
pub mod stream_laws;
pub mod text;

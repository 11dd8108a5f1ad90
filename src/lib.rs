//! Keeps a dy.fi dynamic DNS record pointing at the host's public IPv4
//! address: address parsing, provider response classification, the probe's
//! change detection and the update worker's wake-up and deadline rules.

pub mod ipv4;
pub mod probe;
pub mod status;
pub mod update;
pub mod text;
pub mod auth;
pub mod config;
pub mod supervisor;

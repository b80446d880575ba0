//! A peer-to-peer encrypted chat core: a length-prefixed framing format
//! carrying a tagged control envelope plus a raw payload, two authentication
//! handshakes (shared-password challenge-response and mutual certificate
//! exchange), a symmetric cipher layer keyed from the authentication step,
//! and the decision logic of the duplex communication loop.

pub mod app;
pub mod commands;
pub mod config;
pub mod envelope;
pub mod cipher;
pub mod frame;
pub mod handshake;
pub mod network;
pub mod service_config;
pub mod session;

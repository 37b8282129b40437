//! The decisions of a tunnelling proxy.
//!
//! A client and a server keep one authenticated connection between them and
//! carry TCP connections over its streams, in either direction. This library
//! holds what the two sides decide: the wire format of the requests, the SOCKS5
//! exchange, the life of a relayed connection, the multiplexer's driver, the
//! reconnection policy and the TLS material. Whoever runs it performs the
//! actions that it asks for and hands back what happened.

pub mod address;
pub mod certificate;
pub mod client;
pub mod config;
pub mod forward;
pub mod listener;
pub mod mux;
pub mod reverse;
pub mod server;
pub mod setup;
pub mod socks5;
pub mod text;
pub mod tls;
pub mod wire;

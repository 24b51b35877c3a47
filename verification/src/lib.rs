//! A sidecar that carries DNS and TCP traffic over local sockets.

pub mod buffer;
pub mod client;
pub mod config;
pub mod dns;
pub mod handshake;
pub mod meta;
pub mod net;
pub mod pending;
pub mod random;
pub mod responder;
pub mod server;
pub mod service;
pub mod service_history;
pub mod sessions;
pub mod string_map;
pub mod task;
pub mod tcp;
pub mod testing;
pub mod text;
pub mod url_parts;

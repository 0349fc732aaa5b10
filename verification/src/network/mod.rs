//! Mesh messages, the client handshake and the relay's connection rules.
pub mod protocol;

pub use protocol::{MessageProtocol, MessageType, SecureMessage};
pub mod client;
pub mod server;

pub use client::SecureClient;

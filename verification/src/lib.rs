//! A small runtime core for message-passing nodes that speak one JSON message
//! per line over standard input and output.
//!
//! The crate holds the message envelope and the derivation of replies, the
//! init handshake, the contract that a node implements, and the decisions of
//! the runtime loop. Reading, decoding, encoding and writing lines is the
//! caller's part: it hands each line over as a [`runtime::Input`] and sends
//! what the library gives back.

pub mod init;
pub mod message;
pub mod node;
pub mod runtime;
pub mod wire;

pub use init::{Init, InitPayload};
pub use message::{Body, Message};
pub use node::Node;

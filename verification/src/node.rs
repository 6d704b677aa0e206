//! The contract between the runtime and the application's node.

use crate::init::Init;
use crate::message::Message;
use vstd::prelude::*;

verus! {

/// `anyhow::Error`, the error that a node reports. The library carries such a
/// value from the node to the caller and never looks inside it.
#[verifier::external_type_specification]
#[verifier::external_body]
pub struct ExAnyhowError(anyhow::Error);

/// What an application implements: a node over a start state `S` that handles
/// messages with payload `P`.
pub trait Node<S, P>: Sized {
    /// Builds the node from the start state and the handshake's parameters.
    fn from_init(state: S, init: Init) -> Result<Self, anyhow::Error>;

    /// Handles one received message. Every message the node wants sent is
    /// appended to `output`.
    fn step(&mut self, input: Message<P>, output: &mut Vec<Message<P>>) -> Result<(), anyhow::Error>;
}

} // verus!

//! The init handshake: the first message a node receives and the answer to it.

use crate::message::{Body, Message};
use vstd::prelude::*;

verus! {

/// The parameters a node starts with.
#[derive(Debug, Clone)]
pub struct Init {
    /// Identifier of this node.
    pub node_id: String,
    /// Identifiers of all nodes of the cluster, this one included, in order.
    pub node_ids: Vec<String>,
}

/// The two payloads of the handshake.
#[derive(Debug, Clone)]
pub enum InitPayload {
    /// The request, which carries the start parameters.
    Init(Init),
    /// The acknowledgement, which carries nothing.
    InitOk,
}

/// The acknowledgement owed to the handshake message `msg`: addressed back to
/// its sender, referring to its identifier, and itself numbered zero.
pub open spec fn init_ok_for(msg: Message<InitPayload>) -> Message<InitPayload> {
    Message {
        src: msg.dst,
        dst: msg.src,
        body: Body { id: Some(0usize), in_reply_to: msg.body.id, payload: InitPayload::InitOk },
    }
}

/// What a handshake message asks for: the start parameters it carries and the
/// acknowledgement to send, or nothing where it is no request.
pub open spec fn handshake_of(msg: Message<InitPayload>) -> Option<(Init, Message<InitPayload>)> {
    match msg.body.payload {
        InitPayload::Init(init) => Some((init, init_ok_for(msg))),
        InitPayload::InitOk => None,
    }
}

/// Splits a handshake message into the start parameters and the
/// acknowledgement to send. A message that is no request gives `None`.
pub fn handshake(msg: Message<InitPayload>) -> (res: Option<(Init, Message<InitPayload>)>)
    ensures
        res == handshake_of(msg),
        res is Some <==> msg.body.payload is Init,
        res matches Some((init, reply)) ==> {
            &&& msg.body.payload == InitPayload::Init(init)
            &&& reply.src == msg.dst
            &&& reply.dst == msg.src
            &&& reply.body.id == Some(0usize)
            &&& reply.body.in_reply_to == msg.body.id
            &&& reply.body.payload is InitOk
            &&& reply.answers(msg)
            &&& msg.addressed() ==> reply.addressed()
        },
{
    let Message { src, dst, body } = msg;
    let Body { id, in_reply_to: _, payload } = body;
    match payload {
        InitPayload::Init(init) => {
            let reply = Message {
                src: dst,
                dst: src,
                body: Body { id: Some(0), in_reply_to: id, payload: InitPayload::InitOk },
            };
            Some((init, reply))
        },
        InitPayload::InitOk => None,
    }
}

} // verus!

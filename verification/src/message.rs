//! The message envelope and the derivation of replies.

use vstd::prelude::*;

verus! {

/// The correlation metadata of a message together with its payload.
#[derive(Debug, Clone)]
pub struct Body<P> {
    /// Identifier that the sender assigned, where it expects correlation.
    pub id: Option<usize>,
    /// Identifier of the message that this one answers.
    pub in_reply_to: Option<usize>,
    /// Application content.
    pub payload: P,
}

/// One addressed protocol message.
#[derive(Debug, Clone)]
pub struct Message<P> {
    /// Identifier of the sending node.
    pub src: String,
    /// Identifier of the receiving node.
    pub dst: String,
    pub body: Body<P>,
}

/// The reply to `msg` that carries the identifier `id`: the two addresses
/// change places, the reply refers to the identifier of `msg`, and the
/// payload is the one of `msg`.
pub open spec fn reply_to<P>(msg: Message<P>, id: Option<usize>) -> Message<P> {
    Message {
        src: msg.dst,
        dst: msg.src,
        body: Body { id, in_reply_to: msg.body.id, payload: msg.body.payload },
    }
}

/// The value of a message counter after it has handed out `counter`.
pub open spec fn counter_after(counter: usize) -> usize
    recommends
        counter < usize::MAX,
{
    (counter + 1) as usize
}

impl<P> Message<P> {
    /// Both addresses name a node: neither is empty.
    pub open spec fn addressed(&self) -> bool {
        self.src@.len() > 0 && self.dst@.len() > 0
    }

    /// This message answers `msg`: it goes from the receiver of `msg` back to
    /// its sender and refers to the identifier of `msg`.
    pub open spec fn answers<Q>(&self, msg: Message<Q>) -> bool {
        &&& self.src == msg.dst
        &&& self.dst == msg.src
        &&& self.body.in_reply_to == msg.body.id
    }

    /// Turns a received message into the reply to it: the two addresses change
    /// places, the reply refers to the identifier of the received message, and
    /// the payload is carried over. With a counter, the reply takes the
    /// counter's value as its identifier and the counter moves on by one;
    /// without one, the reply has no identifier and nothing else changes.
    ///
    /// A counter that has reached the largest value cannot hand out another
    /// identifier without using one twice, so such a counter is not accepted.
    pub fn into_reply(self, id: Option<&mut usize>) -> (reply: Self)
        requires
            id matches Some(counter) ==> *counter < usize::MAX,
        ensures
            reply.src == self.dst,
            reply.dst == self.src,
            reply.body.in_reply_to == self.body.id,
            reply.body.payload == self.body.payload,
            reply.answers(self),
            self.addressed() ==> reply.addressed(),
            id matches Some(counter) ==> reply == reply_to(self, Some(*counter)) && *final(counter)
                == counter_after(*counter) && *final(counter) == *counter + 1,
            id is None ==> reply == reply_to(self, None),
    {
        let new_id = match id {
            Some(counter) => {
                let current: usize = *counter;
                *counter = current + 1;
                Some(current)
            },
            None => None,
        };
        Message {
            src: self.dst,
            dst: self.src,
            body: Body { id: new_id, in_reply_to: self.body.id, payload: self.body.payload },
        }
    }
}

/// A reply goes back where the message came from and refers to it: its source
/// is the message's destination, its destination the message's source, and
/// its `in_reply_to` the message's identifier, with or without a counter.
pub proof fn reply_swaps_addresses<P>(msg: Message<P>, id: Option<usize>)
    ensures
        reply_to(msg, id).src == msg.dst,
        reply_to(msg, id).dst == msg.src,
        reply_to(msg, id).body.in_reply_to == msg.body.id,
        reply_to(msg, id).body.payload == msg.body.payload,
        reply_to(msg, id).answers(msg),
        msg.addressed() ==> reply_to(msg, id).addressed(),
        reply_to(reply_to(msg, id), msg.body.id).src == msg.src,
        reply_to(reply_to(msg, id), msg.body.id).dst == msg.dst,
{
}

/// Two replies derived one after the other with the same counter carry
/// different identifiers, the second exactly one above the first, whatever
/// the two messages are. The counter must have room for both: it stands at
/// least two below the largest value.
pub proof fn successive_replies_count_up<P, Q>(first: Message<P>, second: Message<Q>, counter: usize)
    requires
        counter < usize::MAX - 1,
    ensures
        ({
            let one = reply_to(first, Some(counter));
            let between = counter_after(counter);
            let two = reply_to(second, Some(between));
            &&& between < usize::MAX
            &&& one.body.id == Some(counter)
            &&& two.body.id matches Some(next) && next == counter + 1
            &&& one.body.id != two.body.id
            &&& counter_after(between) == counter + 2
        }),
{
}

} // verus!

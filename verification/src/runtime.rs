//! The decisions of the runtime loop.
//!
//! The caller reads and decodes one line at a time and hands over what it got
//! as an [`Input`]. [`start`] handles the first line, [`dispatch`] every later
//! one, and [`confirm_write`] the outcome of sending a message. Each says in
//! which [`Phase`] the runtime goes on, or with which [`Failure`] it ends.

use crate::init::{handshake, handshake_of, Init, InitPayload};
use crate::message::Message;
use crate::node::Node;
use vstd::prelude::*;

verus! {

/// The states of the runtime.
#[derive(Debug, Clone, Copy, PartialEq, Eq, Structural)]
pub enum Phase {
    /// Nothing was received yet.
    AwaitingInit,
    /// The handshake is done and the node handles messages.
    Running,
    /// The input ended or a failure occurred.
    Terminated,
}

/// What reading and decoding one line of input gave.
#[derive(Debug)]
pub enum Input<P> {
    /// A line that decoded to a message.
    Line(Message<P>),
    /// A line that is no message of the expected shape.
    Malformed,
    /// The stream could not be read.
    ReadFailed,
    /// The stream has ended.
    End,
}

/// What sending one message gave.
#[derive(Debug, Clone, Copy, PartialEq, Eq, Structural)]
pub enum Sent {
    /// The whole line went out.
    Written,
    /// The message could not be encoded.
    NotEncoded,
    /// The stream refused the line.
    NotWritten,
}

/// Why the runtime ended. Every failure ends it: none is retried.
#[derive(Debug)]
pub enum Failure {
    /// The input stream could not be read.
    Read,
    /// A line was not a message of the expected shape.
    Deserialization,
    /// The first message was missing or was no init request.
    ProtocolViolation,
    /// The node could not be built; the node's own error is carried along.
    Construction(anyhow::Error),
    /// The node failed on a message; the node's own error is carried along.
    Step(anyhow::Error),
    /// A message could not be encoded.
    Serialization,
    /// The output stream could not be written.
    Write,
}

/// The words that say in which part of the run `failure` occurred in
/// `phase`, for the report that ends the process.
pub open spec fn context_of(failure: Failure, phase: Phase) -> Seq<char> {
    let awaiting = phase == Phase::AwaitingInit;
    match failure {
        Failure::Read => if awaiting {
            "failed to read init message from stdin"@
        } else {
            "Maelstrom input from STDIN could not be read"@
        },
        Failure::Deserialization => if awaiting {
            "init message could not be deserialized"@
        } else {
            "Maelstrom input from STDIN could not be deserialized"@
        },
        Failure::ProtocolViolation => "first message should be init"@,
        Failure::Construction(_) => "node initialization failed"@,
        Failure::Step(_) => "Node step function failed"@,
        Failure::Serialization => if awaiting {
            "serialize response to init"@
        } else {
            "serialize response"@
        },
        Failure::Write => "write trailing newline"@,
    }
}

impl Failure {
    /// The words that say in which part of the run this failure occurred,
    /// given the phase the runtime was in.
    pub fn context(&self, phase: Phase) -> (text: &'static str)
        ensures
            text@ == context_of(*self, phase),
    {
        let awaiting = phase == Phase::AwaitingInit;
        match self {
            Failure::Read => if awaiting {
                "failed to read init message from stdin"
            } else {
                "Maelstrom input from STDIN could not be read"
            },
            Failure::Deserialization => if awaiting {
                "init message could not be deserialized"
            } else {
                "Maelstrom input from STDIN could not be deserialized"
            },
            Failure::ProtocolViolation => "first message should be init",
            Failure::Construction(_) => "node initialization failed",
            Failure::Step(_) => "Node step function failed",
            Failure::Serialization => if awaiting {
                "serialize response to init"
            } else {
                "serialize response"
            },
            Failure::Write => "write trailing newline",
        }
    }
}

/// What the first input asks for: the start parameters and the
/// acknowledgement to send, or the failure that ends the runtime.
pub open spec fn first_input(first: Input<InitPayload>) -> Result<(Init, Message<InitPayload>), Failure> {
    match first {
        Input::Line(msg) => match handshake_of(msg) {
            Some(pair) => Ok(pair),
            None => Err(Failure::ProtocolViolation),
        },
        Input::Malformed => Err(Failure::Deserialization),
        Input::ReadFailed => Err(Failure::Read),
        Input::End => Err(Failure::ProtocolViolation),
    }
}

/// Judges the first input without touching any node: an init request gives
/// its parameters and the acknowledgement, anything else the failure.
pub fn accept_init(first: Input<InitPayload>) -> (res: Result<(Init, Message<InitPayload>), Failure>)
    ensures
        res == first_input(first),
        res is Ok <==> (first matches Input::Line(msg) && msg.body.payload is Init),
        res matches Ok((_, reply)) ==> reply.body.id == Some(0usize),
{
    match first {
        Input::Line(msg) => match handshake(msg) {
            Some(pair) => Ok(pair),
            None => Err(Failure::ProtocolViolation),
        },
        Input::Malformed => Err(Failure::Deserialization),
        Input::ReadFailed => Err(Failure::Read),
        Input::End => Err(Failure::ProtocolViolation),
    }
}

/// What the attempt to build the node gives: the node with the
/// acknowledgement to send, or the construction failure with the node's error.
pub open spec fn built_outcome<N>(built: Result<N, anyhow::Error>, reply: Message<InitPayload>) -> Result<
    (N, Message<InitPayload>),
    Failure,
> {
    match built {
        Ok(node) => Ok((node, reply)),
        Err(cause) => Err(Failure::Construction(cause)),
    }
}

/// Joins the outcome of building the node with the acknowledgement that is
/// owed once it is built.
pub fn started<N>(built: Result<N, anyhow::Error>, reply: Message<InitPayload>) -> (res: Result<
    (N, Message<InitPayload>),
    Failure,
>)
    ensures
        res == built_outcome(built, reply),
{
    match built {
        Ok(node) => Ok((node, reply)),
        Err(cause) => Err(Failure::Construction(cause)),
    }
}

/// Handles the first input. Only an init request reaches the node's
/// constructor; where that succeeds, the node comes back with the
/// acknowledgement, which the caller sends before it reads on.
pub fn start<S, P, N: Node<S, P>>(state: S, first: Input<InitPayload>) -> (res: Result<
    (N, Message<InitPayload>),
    Failure,
>)
    ensures
        match first_input(first) {
            Ok((_, reply)) => match res {
                Ok((_, sent)) => sent == reply,
                Err(failure) => failure is Construction,
            },
            Err(failure) => res matches Err(f) && f == failure,
        },
        res is Ok ==> (first matches Input::Line(msg) && msg.body.payload is Init),
        res matches Ok((_, sent)) ==> sent.body.id == Some(0usize),
        res matches Err(failure) ==> !(failure is Step || failure is Serialization || failure is Write),
{
    match accept_init(first) {
        Ok((init, reply)) => started(N::from_init(state, init), reply),
        Err(failure) => Err(failure),
    }
}

/// The phase after an attempt to send a message, or the failure that ends
/// the runtime.
pub open spec fn write_outcome(sent: Sent) -> Result<Phase, Failure> {
    match sent {
        Sent::Written => Ok(Phase::Running),
        Sent::NotEncoded => Err(Failure::Serialization),
        Sent::NotWritten => Err(Failure::Write),
    }
}

/// Judges the outcome of sending a message: the runtime goes on only where
/// the whole line went out.
pub fn confirm_write(sent: Sent) -> (res: Result<Phase, Failure>)
    ensures
        res == write_outcome(sent),
{
    match sent {
        Sent::Written => Ok(Phase::Running),
        Sent::NotEncoded => Err(Failure::Serialization),
        Sent::NotWritten => Err(Failure::Write),
    }
}

/// The phase after the node handled a message, or the step failure with the
/// node's error.
pub open spec fn step_outcome(stepped: Result<(), anyhow::Error>) -> Result<Phase, Failure> {
    match stepped {
        Ok(_) => Ok(Phase::Running),
        Err(cause) => Err(Failure::Step(cause)),
    }
}

/// Judges what the node's step returned.
pub fn after_step(stepped: Result<(), anyhow::Error>) -> (res: Result<Phase, Failure>)
    ensures
        res == step_outcome(stepped),
{
    match stepped {
        Ok(_) => Ok(Phase::Running),
        Err(cause) => Err(Failure::Step(cause)),
    }
}

/// What an input that carries no message leads to while the node runs.
pub open spec fn idle_outcome<P>(input: Input<P>) -> Result<Phase, Failure>
    recommends
        !(input is Line),
{
    match input {
        Input::Malformed => Err(Failure::Deserialization),
        Input::ReadFailed => Err(Failure::Read),
        _ => Ok(Phase::Terminated),
    }
}

/// Handles one input while the node runs. A message goes to the node's step,
/// exactly once; the end of the stream ends the runtime in good order; a line
/// that is no message, or a failed read, ends it with a failure, and then
/// neither the node nor the output is touched.
pub fn dispatch<S, P, N: Node<S, P>>(node: &mut N, input: Input<P>, output: &mut Vec<Message<P>>) -> (res:
    Result<Phase, Failure>)
    ensures
        input is Line ==> (res matches Ok(phase) ==> phase == Phase::Running) && (res matches Err(failure)
            ==> failure is Step),
        !(input is Line) ==> {
            &&& res == idle_outcome(input)
            &&& *final(node) == *old(node)
            &&& *final(output) == *old(output)
        },
        input is End ==> res matches Ok(Phase::Terminated),
        input is Malformed ==> res matches Err(Failure::Deserialization),
        input is ReadFailed ==> res matches Err(Failure::Read),
{
    match input {
        Input::Line(msg) => after_step(node.step(msg, output)),
        Input::Malformed => Err(Failure::Deserialization),
        Input::ReadFailed => Err(Failure::Read),
        Input::End => Ok(Phase::Terminated),
    }
}

} // verus!

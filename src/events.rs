use vstd::prelude::*;

use crate::addr::PeerAddr;
use crate::message::Message;

verus! {

/// What the transport logic needs to know of a failed socket operation.
#[derive(Clone, Copy, Debug, PartialEq, Eq, Structural)]
pub enum IoErrorKind {
    /// The operation would have blocked: nothing more is available now.
    WouldBlock,
    /// The peer reset the connection.
    ConnectionReset,
    /// Any other failure.
    Other,
}

/// A failed socket operation: its kind and the platform's description of it.
#[derive(Debug)]
pub struct IoFailure {
    pub kind: IoErrorKind,
    pub description: String,
}

/// An inbound network occurrence, handed to the host simulation.
#[derive(Debug)]
pub enum NetworkSimulationEvent {
    /// Bytes received from a peer.
    Message(PeerAddr, Vec<u8>),
    /// A peer connected.
    Connect(PeerAddr),
    /// A peer is gone.
    Disconnect(PeerAddr),
    /// Connecting, accepting or listening failed; the peer, where known.
    ConnectionError(IoFailure, Option<PeerAddr>),
    /// Sending this message failed; the message is dropped.
    SendError(IoFailure, Message),
    /// A read failed for a reason other than would-block, close or reset.
    RecvError(IoFailure),
}

/// The event is a received message from `a` holding the bytes `b`.
pub open spec fn is_message_event(e: NetworkSimulationEvent, a: PeerAddr, b: Seq<u8>) -> bool {
    match e {
        NetworkSimulationEvent::Message(x, bytes) => x == a && bytes@ == b,
        _ => false,
    }
}

/// The event is a `Disconnect` of some peer.
pub open spec fn is_disconnect(e: NetworkSimulationEvent) -> bool {
    match e {
        NetworkSimulationEvent::Disconnect(_) => true,
        _ => false,
    }
}

} // verus!

use vstd::prelude::*;

use crate::addr::PeerAddr;
use crate::events::{IoFailure, NetworkSimulationEvent};
use crate::message::Message;
use crate::requirements::DeliveryRequirement;
use crate::transport::{TransportResource, after_drain, drained};

verus! {

/// The kind of packet the packet backend builds for a message: reliability,
/// arrangement and the optional stream.
#[derive(Clone, Copy, Debug, PartialEq, Eq, Structural)]
pub enum PacketKind {
    Unreliable,
    UnreliableSequenced(Option<u8>),
    ReliableUnordered,
    ReliableSequenced(Option<u8>),
    ReliableOrdered(Option<u8>),
}

/// The packet kind that each delivery requirement asks for; `Default` is
/// reliable and ordered with no explicit stream.
pub open spec fn kind_of(d: DeliveryRequirement) -> PacketKind {
    match d {
        DeliveryRequirement::Unreliable => PacketKind::Unreliable,
        DeliveryRequirement::UnreliableSequenced(s) => PacketKind::UnreliableSequenced(s),
        DeliveryRequirement::Reliable => PacketKind::ReliableUnordered,
        DeliveryRequirement::ReliableSequenced(s) => PacketKind::ReliableSequenced(s),
        DeliveryRequirement::ReliableOrdered(s) => PacketKind::ReliableOrdered(s),
        DeliveryRequirement::Default => PacketKind::ReliableOrdered(None),
    }
}

/// The packet kind for `delivery`.
pub fn packet_kind(delivery: DeliveryRequirement) -> (r: PacketKind)
    ensures
        r == kind_of(delivery),
{
    match delivery {
        DeliveryRequirement::Unreliable => PacketKind::Unreliable,
        DeliveryRequirement::UnreliableSequenced(s) => PacketKind::UnreliableSequenced(s),
        DeliveryRequirement::Reliable => PacketKind::ReliableUnordered,
        DeliveryRequirement::ReliableSequenced(s) => PacketKind::ReliableSequenced(s),
        DeliveryRequirement::ReliableOrdered(s) => PacketKind::ReliableOrdered(s),
        DeliveryRequirement::Default => PacketKind::ReliableOrdered(None),
    }
}

/// Why handing a packet to the packet transport failed.
#[derive(Debug)]
pub enum PacketSendFailure {
    /// An I/O failure: the host is told.
    Io(IoFailure),
    /// A failure inside the protocol: logged, not reported as an event.
    Internal(String),
}

/// What the packet transport reports when it is asked for events.
#[derive(Debug)]
pub enum PacketEvent {
    /// A packet arrived from a peer.
    Packet(PeerAddr, Vec<u8>),
    /// A peer connected.
    Connect(PeerAddr),
    /// A peer went quiet for too long, or its connection ended.
    Timeout(PeerAddr),
}

/// The inbound event that a packet transport event becomes.
pub open spec fn event_of(e: PacketEvent) -> NetworkSimulationEvent {
    match e {
        PacketEvent::Packet(a, b) => NetworkSimulationEvent::Message(a, b),
        PacketEvent::Connect(a) => NetworkSimulationEvent::Connect(a),
        PacketEvent::Timeout(a) => NetworkSimulationEvent::Disconnect(a),
    }
}

/// Records the outcome of sending `message`: an I/O failure becomes a
/// `SendError` that carries the message; success and protocol-internal
/// failures add nothing.
pub fn record_packet_send(
    message: Message,
    result: Result<(), PacketSendFailure>,
    events: &mut Vec<NetworkSimulationEvent>,
)
    ensures
        match result {
            Err(PacketSendFailure::Io(e)) => final(events)@ == old(events)@.push(
                NetworkSimulationEvent::SendError(e, message),
            ),
            _ => final(events)@ == old(events)@,
        },
{
    match result {
        Err(PacketSendFailure::Io(e)) => events.push(NetworkSimulationEvent::SendError(e, message)),
        _ => {},
    }
}

/// Appends the inbound event for each transport event, in arrival order:
/// packets become `Message`s with their bytes, connects `Connect`s and
/// timeouts `Disconnect`s.
pub fn receive_packet_events(
    incoming: Vec<PacketEvent>,
    events: &mut Vec<NetworkSimulationEvent>,
)
    ensures
        final(events)@ == old(events)@ + incoming@.map_values(|e: PacketEvent| event_of(e)),
{
    let ghost inc = incoming@;
    let len0 = incoming.len();
    let mut rest = incoming;
    let mut k: usize = 0;
    let ghost n = inc.len();
    assert(inc.subrange(0, 0).map_values(|e: PacketEvent| event_of(e)) =~= Seq::<
        NetworkSimulationEvent,
    >::empty());
    assert(inc.subrange(0, n as int) =~= inc);
    while rest.len() > 0
        invariant
            k <= n,
            n == inc.len(),
            n == len0,
            rest@ == inc.subrange(k as int, n as int),
            events@ == old(events)@ + inc.subrange(0, k as int).map_values(
                |e: PacketEvent| event_of(e),
            ),
        decreases rest@.len(),
    {
        let ghost before = rest@;
        let e = rest.remove(0);
        assert(e == inc[k as int]);
        let out = match e {
            PacketEvent::Packet(a, b) => NetworkSimulationEvent::Message(a, b),
            PacketEvent::Connect(a) => NetworkSimulationEvent::Connect(a),
            PacketEvent::Timeout(a) => NetworkSimulationEvent::Disconnect(a),
        };
        events.push(out);
        assert(inc.subrange(0, k as int + 1).map_values(|e: PacketEvent| event_of(e))
            =~= inc.subrange(0, k as int).map_values(|e: PacketEvent| event_of(e)).push(
            event_of(inc[k as int]),
        ));
        assert(rest@ =~= inc.subrange(k as int + 1, n as int));
        k = k + 1;
    }
    assert(inc.subrange(0, n as int) =~= inc);
}

/// The packet backend's state: the socket, if one is configured. Without a
/// socket every stage does nothing.
pub struct LaminarSocketResource<S> {
    socket: Option<S>,
}

impl<S> LaminarSocketResource<S> {
    /// The configured socket, if any.
    pub closed spec fn socket(&self) -> Option<S> {
        self.socket
    }

    /// Whether a socket is configured.
    pub open spec fn has_socket(&self) -> bool {
        self.socket() is Some
    }

    pub fn new(socket: Option<S>) -> (r: Self)
        ensures
            r.socket() == socket,
    {
        LaminarSocketResource { socket }
    }

    /// The socket, if one is configured.
    pub fn get(&self) -> (r: Option<&S>)
        ensures
            match r {
                Some(s) => self.socket() == Some(*s),
                None => self.socket() is None,
            },
    {
        match &self.socket {
            Some(s) => Some(s),
            None => None,
        }
    }

    /// The socket, if one is configured, for use.
    pub fn get_mut(&mut self) -> (r: Option<&mut S>)
        ensures
            match r {
                Some(s) => old(self).socket() == Some(*s),
                None => old(self).socket() is None && final(self).socket() is None,
            },
            final(self).has_socket() == old(self).has_socket(),
    {
        match &mut self.socket {
            Some(s) => Some(s),
            None => None,
        }
    }

    /// Sets the bound socket, dropping any earlier one.
    pub fn set_socket(&mut self, socket: S)
        ensures
            final(self).socket() == Some(socket),
    {
        self.socket = Some(socket);
    }

    /// Drops the socket: the backend is inert after this.
    pub fn drop_socket(&mut self)
        ensures
            final(self).socket() is None,
    {
        self.socket = None;
    }

    /// The send stage's draw on the queue: with a socket, the queue is drained
    /// under `gate`; without one, nothing is taken.
    pub fn messages_to_send(&self, queue: &mut TransportResource, gate: bool) -> (r: Vec<Message>)
        ensures
            final(queue)@ == after_drain(old(queue)@, gate && self.has_socket()),
            r@ == drained(old(queue)@, gate && self.has_socket()),
    {
        if self.socket.is_some() {
            queue.drain_messages_to_send(gate)
        } else {
            Vec::new()
        }
    }
}

impl<S> Default for LaminarSocketResource<S> {
    fn default() -> (r: Self)
        ensures
            r.socket() is None,
    {
        LaminarSocketResource { socket: None }
    }
}

} // verus!

use vstd::prelude::*;

use crate::addr::PeerAddr;
use crate::message::Message;
use crate::requirements::DeliveryRequirement;

verus! {

/// The outbound queue shared by every backend. Messages wait here, in the order
/// they were queued, until a send stage drains them.
pub struct TransportResource {
    messages: Vec<Message>,
}

impl View for TransportResource {
    type V = Seq<Message>;

    closed spec fn view(&self) -> Seq<Message> {
        self.messages@
    }
}

/// What one drain with gate `gate` leaves in a queue that held `q`.
pub open spec fn after_drain(q: Seq<Message>, gate: bool) -> Seq<Message> {
    if gate {
        Seq::empty()
    } else {
        q
    }
}

/// What one drain with gate `gate` takes from a queue that held `q`.
pub open spec fn drained(q: Seq<Message>, gate: bool) -> Seq<Message> {
    if gate {
        q
    } else {
        Seq::empty()
    }
}

/// What is left of `q` after `n` drains with a closed gate.
pub open spec fn after_closed_ticks(q: Seq<Message>, n: nat) -> Seq<Message>
    decreases n,
{
    if n == 0 {
        q
    } else {
        after_drain(after_closed_ticks(q, (n - 1) as nat), false)
    }
}

impl TransportResource {
    /// An empty queue.
    pub fn new() -> (r: TransportResource)
        ensures
            r@ == Seq::<Message>::empty(),
    {
        TransportResource { messages: Vec::new() }
    }

    /// Queues `payload` for `destination` with the `Default` delivery.
    pub fn send(&mut self, destination: PeerAddr, payload: Vec<u8>)
        ensures
            final(self)@.len() == old(self)@.len() + 1,
            final(self)@.drop_last() == old(self)@,
            final(self)@.last().destination == destination,
            final(self)@.last().payload@ == payload@,
            final(self)@.last().delivery == DeliveryRequirement::Default,
    {
        self.send_with_requirement(destination, payload, DeliveryRequirement::Default);
    }

    /// Queues `payload` for `destination` with the given delivery, without any
    /// check of the address or the bytes.
    pub fn send_with_requirement(
        &mut self,
        destination: PeerAddr,
        payload: Vec<u8>,
        delivery: DeliveryRequirement,
    )
        ensures
            final(self)@.len() == old(self)@.len() + 1,
            final(self)@.drop_last() == old(self)@,
            final(self)@.last().destination == destination,
            final(self)@.last().payload@ == payload@,
            final(self)@.last().delivery == delivery,
    {
        let m = Message::new(destination, payload, delivery);
        self.messages.push(m);
        assert(self@.drop_last() =~= old(self)@);
    }

    /// The messages waiting, oldest first.
    pub fn get_messages(&self) -> (r: &[Message])
        ensures
            r@ == self@,
    {
        self.messages.as_slice()
    }

    /// Whether any message waits.
    pub fn has_messages(&self) -> (r: bool)
        ensures
            r == (self@.len() > 0),
    {
        self.messages.len() > 0
    }

    /// Removes and returns every waiting message, in queue order, when `gate`
    /// allows sending this tick; otherwise returns nothing and leaves the queue
    /// as it is.
    pub fn drain_messages_to_send(&mut self, gate: bool) -> (r: Vec<Message>)
        ensures
            final(self)@ == after_drain(old(self)@, gate),
            r@ == drained(old(self)@, gate),
    {
        let mut out: Vec<Message> = Vec::new();
        if gate {
            std::mem::swap(&mut out, &mut self.messages);
        }
        out
    }
}

/// Refused drains change nothing: what is left after `n` of them
/// equals what was waiting before, message for message.
pub proof fn lemma_closed_gate_keeps_queue(q: Seq<Message>, n: nat)
    ensures
        after_closed_ticks(q, n) == q,
    decreases n,
{
    if n > 0 {
        lemma_closed_gate_keeps_queue(q, (n - 1) as nat);
    }
}

/// A drain that is allowed loses and duplicates nothing: what it takes holds
/// each waiting message as often as it waited, in queue order, and what it
/// leaves is empty; together they hold exactly what was waiting.
pub proof fn lemma_open_drain_total(q: Seq<Message>)
    ensures
        drained(q, true) + after_drain(q, true) == q,
        drained(q, true).len() == q.len(),
        drained(q, true).to_multiset() == q.to_multiset(),
        after_drain(q, true).len() == 0,
{
    assert(drained(q, true) + after_drain(q, true) =~= q);
}

} // verus!

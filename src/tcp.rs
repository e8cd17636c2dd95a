use vstd::prelude::*;

use crate::addr::PeerAddr;
use crate::events::{IoErrorKind, IoFailure, NetworkSimulationEvent, is_disconnect};
use crate::message::Message;
use crate::requirements::DeliveryRequirement;

verus! {

/// One peer of the stream backend: its address, whether it is still usable,
/// and the stream handle, which only the table holds.
pub struct StreamConnection<S> {
    pub addr: PeerAddr,
    pub live: bool,
    pub stream: S,
}

/// The stream backend's state: an optional listener, the connection table and
/// the size of the buffer that each read fills.
///
/// A connection found dead is only marked; it leaves the table, with its one
/// `Disconnect`, at the next maintenance pass (`reap_dead`).
pub struct TcpNetworkResource<L, S> {
    listener: Option<L>,
    streams: Vec<StreamConnection<S>>,
    recv_buffer_size: usize,
}

/// The requested delivery cannot be given by the stream backend.
#[derive(Clone, Copy, Debug, PartialEq, Eq, Structural)]
pub struct ConfigurationError {
    pub delivery: DeliveryRequirement,
}

/// The view of one connection: address and liveness.
pub open spec fn conn_view<S>(c: StreamConnection<S>) -> (PeerAddr, bool) {
    (c.addr, c.live)
}

/// No address appears twice in the table.
pub open spec fn unique_addrs(t: Seq<(PeerAddr, bool)>) -> bool {
    forall|i: int, j: int| 0 <= i < j < t.len() ==> t[i].0 != t[j].0
}

/// The entries of `t` that are live, in order.
pub open spec fn live_only(t: Seq<(PeerAddr, bool)>) -> Seq<(PeerAddr, bool)>
    decreases t.len(),
{
    if t.len() == 0 {
        t
    } else {
        let r = live_only(t.drop_last());
        if t.last().1 {
            r.push(t.last())
        } else {
            r
        }
    }
}

/// The addresses of the dead entries of `t`, in order.
pub open spec fn dead_addrs(t: Seq<(PeerAddr, bool)>) -> Seq<PeerAddr>
    decreases t.len(),
{
    if t.len() == 0 {
        Seq::empty()
    } else {
        let r = dead_addrs(t.drop_last());
        if t.last().1 {
            r
        } else {
            r.push(t.last().0)
        }
    }
}

/// How often `a` occurs in `s`.
pub open spec fn occurrences(s: Seq<PeerAddr>, a: PeerAddr) -> nat
    decreases s.len(),
{
    if s.len() == 0 {
        0
    } else {
        occurrences(s.drop_last(), a) + if s.last() == a {
            1nat
        } else {
            0nat
        }
    }
}

/// `Disconnect` events for the addresses in `s`, in order.
pub open spec fn disconnect_events(s: Seq<PeerAddr>) -> Seq<NetworkSimulationEvent> {
    s.map_values(|a: PeerAddr| NetworkSimulationEvent::Disconnect(a))
}

/// Where an entry for `a` goes in `t`: the index of the entry that holds `a`,
/// or the end of the table where none does.
pub open spec fn slot(t: Seq<(PeerAddr, bool)>, a: PeerAddr) -> int {
    if exists|i: int| 0 <= i < t.len() && t[i].0 == a {
        choose|i: int| 0 <= i < t.len() && t[i].0 == a
    } else {
        t.len() as int
    }
}

/// The table `t` after `a` is put in, live: an entry for `a` is replaced in
/// place, else the new one is appended.
pub open spec fn with_live(t: Seq<(PeerAddr, bool)>, a: PeerAddr) -> Seq<(PeerAddr, bool)> {
    if slot(t, a) < t.len() {
        t.update(slot(t, a), (a, true))
    } else {
        t.push((a, true))
    }
}

/// The handles `h` of table `t` after `a` is put in with stream `s`.
pub open spec fn with_handle<S>(h: Seq<S>, t: Seq<(PeerAddr, bool)>, a: PeerAddr, s: S) -> Seq<S> {
    if slot(t, a) < t.len() {
        h.update(slot(t, a), s)
    } else {
        h.push(s)
    }
}

/// The handles `h` of the live entries of table `t`, in order.
pub open spec fn live_handles<S>(t: Seq<(PeerAddr, bool)>, h: Seq<S>) -> Seq<S>
    decreases h.len(),
{
    if h.len() == 0 || t.len() == 0 {
        Seq::empty()
    } else {
        let r = live_handles(t.drop_last(), h.drop_last());
        if t.last().1 {
            r.push(h.last())
        } else {
            r
        }
    }
}

/// Where the stream backend sends a message it can deliver.
#[derive(Clone, Copy, Debug, PartialEq, Eq, Structural)]
pub enum StreamRoute {
    /// Write to the stream of this entry.
    Write(usize),
    /// No entry holds the destination: connect first, then write.
    Connect,
}

/// The deliveries the stream backend can give: reliable and ordered.
pub open spec fn stream_supported(d: DeliveryRequirement) -> bool {
    match d {
        DeliveryRequirement::ReliableOrdered(_) | DeliveryRequirement::Default => true,
        _ => false,
    }
}

proof fn lemma_live_only_from(t: Seq<(PeerAddr, bool)>)
    ensures
        forall|p: int| 0 <= p < live_only(t).len() ==> t.contains(#[trigger] live_only(t)[p]),
        forall|p: int| 0 <= p < live_only(t).len() ==> (#[trigger] live_only(t)[p]).1,
    decreases t.len(),
{
    if t.len() > 0 {
        lemma_live_only_from(t.drop_last());
        let r = live_only(t.drop_last());
        assert forall|p: int| 0 <= p < live_only(t).len() implies t.contains(
            #[trigger] live_only(t)[p],
        ) by {
            if p < r.len() {
                let x = r[p];
                assert(t.drop_last().contains(x));
                let j = choose|j: int| 0 <= j < t.drop_last().len() && t.drop_last()[j] == x;
                assert(t[j] == x);
            } else {
                assert(t[t.len() - 1] == t.last());
            }
        }
    }
}

proof fn lemma_live_only_unique(t: Seq<(PeerAddr, bool)>)
    requires
        unique_addrs(t),
    ensures
        unique_addrs(live_only(t)),
    decreases t.len(),
{
    if t.len() > 0 {
        let d = t.drop_last();
        assert(unique_addrs(d));
        lemma_live_only_unique(d);
        lemma_live_only_from(d);
        let r = live_only(d);
        if t.last().1 {
            assert forall|p: int| 0 <= p < r.len() implies r[p].0 != t.last().0 by {
                let j = choose|j: int| 0 <= j < d.len() && d[j] == r[p];
                assert(t[j] == d[j]);
                assert(t[t.len() - 1] == t.last());
            }
            let s = r.push(t.last());
            assert forall|i: int, j: int| 0 <= i < j < s.len() implies s[i].0 != s[j].0 by {
                if j == s.len() - 1 {
                    assert(s[i] == r[i]);
                } else {
                    assert(s[i] == r[i] && s[j] == r[j]);
                }
            }
        }
    }
}

/// An address that no entry holds is not among the dead addresses.
proof fn lemma_dead_addrs_absent(t: Seq<(PeerAddr, bool)>, a: PeerAddr)
    requires
        forall|j: int| 0 <= j < t.len() ==> t[j].0 != a,
    ensures
        occurrences(dead_addrs(t), a) == 0,
    decreases t.len(),
{
    if t.len() > 0 {
        lemma_dead_addrs_absent(t.drop_last(), a);
        assert(t[t.len() - 1] == t.last());
        if !t.last().1 {
            assert(dead_addrs(t).drop_last() == dead_addrs(t.drop_last()));
        }
    }
}

proof fn lemma_live_only_absent(t: Seq<(PeerAddr, bool)>, a: PeerAddr)
    requires
        forall|j: int| 0 <= j < t.len() ==> t[j].0 != a,
    ensures
        forall|p: int| 0 <= p < live_only(t).len() ==> (#[trigger] live_only(t)[p]).0 != a,
{
    lemma_live_only_from(t);
    assert forall|p: int| 0 <= p < live_only(t).len() implies (#[trigger] live_only(t)[p]).0
        != a by {
        let j = choose|j: int| 0 <= j < t.len() && t[j] == live_only(t)[p];
    }
}

/// A connection marked dead is reported exactly once by the next maintenance
/// pass, and that pass removes it: in a table with one entry per address, the
/// addresses reported for the dead entries hold its address once, and the
/// entries kept do not hold it.
pub proof fn lemma_dead_connection_reported_once(t: Seq<(PeerAddr, bool)>, i: int)
    requires
        unique_addrs(t),
        0 <= i < t.len(),
        !t[i].1,
    ensures
        occurrences(dead_addrs(t), t[i].0) == 1,
        forall|p: int| 0 <= p < live_only(t).len() ==> (#[trigger] live_only(t)[p]).0 != t[i].0,
    decreases t.len(),
{
    let a = t[i].0;
    let d = t.drop_last();
    if i == t.len() - 1 {
        assert forall|j: int| 0 <= j < d.len() implies d[j].0 != a by {
            assert(d[j] == t[j]);
        }
        lemma_dead_addrs_absent(d, a);
        lemma_live_only_absent(d, a);
        assert(t.last() == t[i]);
        assert(live_only(t) == live_only(d));
        assert(dead_addrs(t).drop_last() == dead_addrs(d));
    } else {
        assert(d[i] == t[i]);
        assert(unique_addrs(d));
        lemma_dead_connection_reported_once(d, i);
        assert(t.last() == t[t.len() - 1]);
        assert(t.last().0 != a);
        if t.last().1 {
            let r = live_only(d);
            assert forall|p: int| 0 <= p < live_only(t).len() implies (#[trigger] live_only(
                t,
            )[p]).0 != a by {
                if p < r.len() {
                    assert(live_only(t)[p] == r[p]);
                }
            }
        } else {
            assert(dead_addrs(t).drop_last() == dead_addrs(d));
        }
    }
}

impl<L, S> TcpNetworkResource<L, S> {
    /// The table as addresses and liveness, in order.
    pub closed spec fn conns(&self) -> Seq<(PeerAddr, bool)> {
        self.streams@.map_values(|c: StreamConnection<S>| conn_view(c))
    }

    /// The stream handle of each entry, in table order.
    pub closed spec fn handles(&self) -> Seq<S> {
        self.streams@.map_values(|c: StreamConnection<S>| c.stream)
    }

    /// The configured listener, if any.
    pub closed spec fn listener(&self) -> Option<L> {
        self.listener
    }

    /// The size of the buffer each read fills.
    pub closed spec fn buffer_size(&self) -> nat {
        self.recv_buffer_size as nat
    }

    /// One entry per address, and one handle per entry.
    pub open spec fn wf(&self) -> bool {
        &&& unique_addrs(self.conns())
        &&& self.handles().len() == self.conns().len()
    }

    /// A backend with no connections yet.
    pub fn new(listener: Option<L>, recv_buffer_size_bytes: usize) -> (r: Self)
        ensures
            r.wf(),
            r.conns().len() == 0,
            r.listener() == listener,
            r.buffer_size() == recv_buffer_size_bytes,
    {
        let r = TcpNetworkResource {
            listener,
            streams: Vec::new(),
            recv_buffer_size: recv_buffer_size_bytes,
        };
        assert(r.conns() =~= Seq::<(PeerAddr, bool)>::empty());
        assert(r.handles() =~= Seq::<S>::empty());
        r
    }

    /// The size of the buffer each read fills.
    pub fn recv_buffer_size(&self) -> (r: usize)
        ensures
            r == self.buffer_size(),
    {
        self.recv_buffer_size
    }

    /// The listener, if one is configured.
    pub fn get(&self) -> (r: Option<&L>)
        ensures
            match r {
                Some(l) => self.listener() == Some(*l),
                None => self.listener() is None,
            },
    {
        match &self.listener {
            Some(l) => Some(l),
            None => None,
        }
    }

    /// The listener, if one is configured, for use; the table stays as it is.
    pub fn get_mut(&mut self) -> (r: Option<&mut L>)
        ensures
            match r {
                Some(l) => old(self).listener() == Some(*l),
                None => old(self).listener() is None && final(self).listener() is None,
            },
            final(self).listener() is Some == old(self).listener() is Some,
            final(self).conns() == old(self).conns(),
            final(self).handles() == old(self).handles(),
            final(self).buffer_size() == old(self).buffer_size(),
    {
        match &mut self.listener {
            Some(l) => Some(l),
            None => None,
        }
    }

    /// Sets the listener that accepts inbound connections, dropping any
    /// earlier one.
    pub fn set_listener(&mut self, listener: L)
        ensures
            final(self).listener() == Some(listener),
            final(self).conns() == old(self).conns(),
            final(self).handles() == old(self).handles(),
            final(self).buffer_size() == old(self).buffer_size(),
    {
        self.listener = Some(listener);
    }

    /// Drops the listener: no inbound connections are accepted after this.
    pub fn drop_listener(&mut self)
        ensures
            final(self).listener() is None,
            final(self).conns() == old(self).conns(),
            final(self).handles() == old(self).handles(),
            final(self).buffer_size() == old(self).buffer_size(),
    {
        self.listener = None;
    }

    /// The number of connections in the table.
    pub fn len(&self) -> (r: usize)
        ensures
            r == self.conns().len(),
    {
        self.streams.len()
    }

    /// The address and liveness of entry `i`.
    pub fn entry(&self, i: usize) -> (r: (PeerAddr, bool))
        requires
            i < self.conns().len(),
        ensures
            r == self.conns()[i as int],
    {
        (self.streams[i].addr, self.streams[i].live)
    }

    /// The index of the entry for `addr`, if there is one; its stream is
    /// `handles()` at that index.
    pub fn get_stream(&self, addr: PeerAddr) -> (r: Option<usize>)
        ensures
            match r {
                Some(i) => i < self.conns().len() && self.conns()[i as int].0 == addr,
                None => forall|j: int| 0 <= j < self.conns().len() ==> self.conns()[j].0 != addr,
            },
    {
        let mut i: usize = 0;
        while i < self.streams.len()
            invariant
                i <= self.streams@.len(),
                self.conns().len() == self.streams@.len(),
                forall|j: int| 0 <= j < i ==> self.conns()[j].0 != addr,
            decreases self.streams@.len() - i,
        {
            if self.streams[i].addr == addr {
                return Some(i);
            }
            i = i + 1;
        }
        None
    }

    /// The stream of entry `i`, for reading or writing. Only that handle can
    /// change; addresses and liveness stay as they are.
    pub fn stream_mut(&mut self, i: usize) -> (r: &mut S)
        requires
            i < old(self).conns().len(),
        ensures
            *r == old(self).handles()[i as int],
            final(self).handles() == old(self).handles().update(i as int, *final(r)),
            final(self).conns() == old(self).conns(),
            final(self).listener() == old(self).listener(),
            final(self).buffer_size() == old(self).buffer_size(),
    {
        &mut self.streams[i].stream
    }

    /// Removes the entry for `addr`, if there is one, and hands it back.
    pub fn drop_stream(&mut self, addr: PeerAddr) -> (r: Option<StreamConnection<S>>)
        requires
            old(self).wf(),
        ensures
            final(self).wf(),
            final(self).listener() == old(self).listener(),
            final(self).buffer_size() == old(self).buffer_size(),
            match r {
                Some(c) => exists|i: int|
                    0 <= i < old(self).conns().len() && old(self).conns()[i] == conn_view(c)
                        && old(self).handles()[i] == c.stream && c.addr == addr
                        && final(self).conns() == old(self).conns().remove(i)
                        && final(self).handles() == old(self).handles().remove(i),
                None => final(self).conns() == old(self).conns() && final(self).handles() == old(
                    self,
                ).handles() && forall|j: int|
                    0 <= j < old(self).conns().len() ==> old(self).conns()[j].0 != addr,
            },
    {
        match self.get_stream(addr) {
            Some(i) => {
                let c = self.streams.remove(i);
                assert(self.conns() =~= old(self).conns().remove(i as int));
                assert(self.handles() =~= old(self).handles().remove(i as int));
                assert(unique_addrs(self.conns())) by {
                    let t = old(self).conns();
                    assert forall|p: int, q: int|
                        0 <= p < q < self.conns().len() implies self.conns()[p].0
                        != self.conns()[q].0 by {
                        let pp = if p < i { p } else { p + 1 };
                        let qq = if q < i { q } else { q + 1 };
                        assert(self.conns()[p] == t[pp]);
                        assert(self.conns()[q] == t[qq]);
                    }
                }
                Some(c)
            },
            None => None,
        }
    }

    /// Whether an outbound message to `addr` needs a new connection: no entry
    /// for it is in the table.
    pub fn needs_connection(&self, addr: PeerAddr) -> (r: bool)
        ensures
            r == forall|j: int| 0 <= j < self.conns().len() ==> self.conns()[j].0 != addr,
    {
        self.get_stream(addr).is_none()
    }

    /// Puts `stream` in the table for `addr`, live, replacing any entry for it,
    /// and gives the index of the entry.
    fn insert_live(&mut self, addr: PeerAddr, stream: S) -> (r: usize)
        requires
            old(self).wf(),
        ensures
            final(self).wf(),
            r == slot(old(self).conns(), addr),
            r < final(self).conns().len(),
            final(self).conns()[r as int] == (addr, true),
            final(self).handles()[r as int] == stream,
            final(self).conns() == with_live(old(self).conns(), addr),
            final(self).handles() == with_handle(old(self).handles(), old(self).conns(), addr, stream),
            final(self).listener() == old(self).listener(),
            final(self).buffer_size() == old(self).buffer_size(),
    {
        let ghost t = self.conns();
        let ghost h = self.handles();
        match self.get_stream(addr) {
            Some(i) => {
                self.streams.set(i, StreamConnection { addr, live: true, stream });
                assert(self.conns() =~= t.update(i as int, (addr, true)));
                assert(self.handles() =~= h.update(i as int, stream));
                let ghost k = choose|k: int| 0 <= k < t.len() && t[k].0 == addr;
                assert(k == i as int);
                assert(unique_addrs(self.conns())) by {
                    assert forall|p: int, q: int|
                        0 <= p < q < self.conns().len() implies self.conns()[p].0
                        != self.conns()[q].0 by {
                        assert(t[p].0 != t[q].0);
                    }
                }
                i
            },
            None => {
                let n = self.streams.len();
                self.streams.push(StreamConnection { addr, live: true, stream });
                assert(self.conns() =~= t.push((addr, true)));
                assert(self.handles() =~= h.push(stream));
                n
            },
        }
    }

    /// Records the outcome of connecting to `addr`: a stream goes in the table,
    /// live, and the index of its entry comes back; a failure becomes a
    /// `ConnectionError` for `addr`, and the table stays as it was.
    pub fn record_connect(
        &mut self,
        addr: PeerAddr,
        result: Result<S, IoFailure>,
        events: &mut Vec<NetworkSimulationEvent>,
    ) -> (r: Option<usize>)
        requires
            old(self).wf(),
        ensures
            final(self).wf(),
            final(self).listener() == old(self).listener(),
            final(self).buffer_size() == old(self).buffer_size(),
            match result {
                Ok(s) => r == Some(slot(old(self).conns(), addr) as usize)
                    && slot(old(self).conns(), addr) < final(self).conns().len()
                    && final(self).conns()[slot(old(self).conns(), addr)] == (addr, true)
                    && final(self).handles()[slot(old(self).conns(), addr)] == s
                    && final(self).conns() == with_live(old(self).conns(), addr)
                    && final(self).handles() == with_handle(old(self).handles(), old(self).conns(), addr, s)
                    && final(events)@ == old(events)@,
                Err(e) => r is None && final(self).conns() == old(self).conns()
                    && final(self).handles() == old(self).handles()
                    && final(events)@ == old(events)@.push(
                    NetworkSimulationEvent::ConnectionError(e, Some(addr)),
                ),
            },
    {
        match result {
            Ok(s) => Some(self.insert_live(addr, s)),
            Err(e) => {
                events.push(NetworkSimulationEvent::ConnectionError(e, Some(addr)));
                None
            },
        }
    }

    /// Records the outcome of one accept on the listener and says whether to
    /// accept again this tick. A new stream goes in the table, live, with a
    /// `Connect`; would-block ends accepting quietly; any other failure becomes
    /// a `ConnectionError` with no address and ends accepting.
    pub fn record_accept(
        &mut self,
        result: Result<(S, PeerAddr), IoFailure>,
        events: &mut Vec<NetworkSimulationEvent>,
    ) -> (again: bool)
        requires
            old(self).wf(),
        ensures
            final(self).wf(),
            final(self).listener() == old(self).listener(),
            final(self).buffer_size() == old(self).buffer_size(),
            again == result is Ok,
            match result {
                Ok((s, a)) => final(self).conns() == with_live(old(self).conns(), a)
                    && final(self).handles() == with_handle(old(self).handles(), old(self).conns(), a, s)
                    && slot(old(self).conns(), a) < final(self).conns().len()
                    && final(self).conns()[slot(old(self).conns(), a)] == (a, true)
                    && final(self).handles()[slot(old(self).conns(), a)] == s
                    && final(events)@ == old(events)@.push(NetworkSimulationEvent::Connect(a)),
                Err(e) => final(self).conns() == old(self).conns()
                    && final(self).handles() == old(self).handles()
                    && if e.kind == IoErrorKind::WouldBlock {
                    final(events)@ == old(events)@
                } else {
                    final(events)@ == old(events)@.push(
                        NetworkSimulationEvent::ConnectionError(e, None),
                    )
                },
            },
    {
        match result {
            Ok((s, a)) => {
                self.insert_live(a, s);
                events.push(NetworkSimulationEvent::Connect(a));
                true
            },
            Err(e) => {
                if e.kind != IoErrorKind::WouldBlock {
                    events.push(NetworkSimulationEvent::ConnectionError(e, None));
                }
                false
            },
        }
    }

    /// Marks entry `i` dead; it stays in the table, with its stream, until the
    /// next `reap_dead`.
    fn mark_dead(&mut self, i: usize)
        requires
            old(self).wf(),
            i < old(self).conns().len(),
        ensures
            final(self).wf(),
            final(self).conns() == old(self).conns().update(
                i as int,
                (old(self).conns()[i as int].0, false),
            ),
            final(self).handles() == old(self).handles(),
            final(self).listener() == old(self).listener(),
            final(self).buffer_size() == old(self).buffer_size(),
    {
        let ghost t = self.conns();
        let ghost h = self.handles();
        self.streams[i].live = false;
        assert(self.conns() =~= t.update(i as int, (t[i as int].0, false)));
        assert(self.handles() =~= h);
        assert(unique_addrs(self.conns())) by {
            assert forall|p: int, q: int|
                0 <= p < q < self.conns().len() implies self.conns()[p].0 != self.conns()[q].0 by {
                assert(t[p].0 != t[q].0);
            }
        }
    }

    /// Records whether the peer address of entry `i` could be resolved. A
    /// failure marks the entry dead, and its reads are skipped this tick.
    pub fn record_peer_addr(&mut self, i: usize, result: Result<PeerAddr, IoFailure>) -> (r:
        Option<PeerAddr>)
        requires
            old(self).wf(),
            i < old(self).conns().len(),
        ensures
            final(self).wf(),
            final(self).handles() == old(self).handles(),
            final(self).listener() == old(self).listener(),
            final(self).buffer_size() == old(self).buffer_size(),
            match result {
                Ok(a) => r == Some(a) && final(self).conns() == old(self).conns(),
                Err(_) => r is None && final(self).conns() == old(self).conns().update(
                    i as int,
                    (old(self).conns()[i as int].0, false),
                ),
            },
    {
        match result {
            Ok(a) => Some(a),
            Err(_) => {
                self.mark_dead(i);
                None
            },
        }
    }

    /// Records the outcome of one read on entry `i`, whose peer is `peer`, into
    /// `buf`, and says whether to read that entry again this tick.
    ///
    /// Bytes read become one `Message`; a read of zero bytes (the peer closed)
    /// or a reset marks the entry dead; would-block ends the reads quietly; any
    /// other failure becomes a `RecvError`. No `Disconnect` comes from here.
    pub fn record_read(
        &mut self,
        i: usize,
        peer: PeerAddr,
        result: Result<usize, IoFailure>,
        buf: &[u8],
        events: &mut Vec<NetworkSimulationEvent>,
    ) -> (again: bool)
        requires
            old(self).wf(),
            i < old(self).conns().len(),
            match result {
                Ok(n) => n <= buf@.len(),
                Err(_) => true,
            },
        ensures
            final(self).wf(),
            final(self).handles() == old(self).handles(),
            final(self).listener() == old(self).listener(),
            final(self).buffer_size() == old(self).buffer_size(),
            forall|k: int|
                old(events)@.len() <= k < final(events)@.len() ==> !is_disconnect(
                    #[trigger] final(events)@[k],
                ),
            match result {
                Ok(n) => if n > 0 {
                    again && final(self).conns() == old(self).conns() && final(events)@.len()
                        == old(events)@.len() + 1 && final(events)@.drop_last() == old(events)@
                        && crate::events::is_message_event(
                        final(events)@.last(),
                        peer,
                        buf@.subrange(0, n as int),
                    )
                } else {
                    !again && final(events)@ == old(events)@ && final(self).conns() == old(self).conns().update(i as int, (old(self).conns()[i as int].0, false))
                },
                Err(e) => !again && match e.kind {
                    IoErrorKind::WouldBlock => final(self).conns() == old(self).conns() && final(events)@ == old(events)@,
                    IoErrorKind::ConnectionReset => final(events)@ == old(events)@ && final(self).conns() == old(self).conns().update(
                        i as int,
                        (old(self).conns()[i as int].0, false),
                    ),
                    IoErrorKind::Other => final(self).conns() == old(self).conns() && final(events)@ == old(events)@.push(NetworkSimulationEvent::RecvError(e)),
                },
            },
    {
        match result {
            Ok(n) => {
                if n > 0 {
                    let bytes = copy_prefix(buf, n);
                    events.push(NetworkSimulationEvent::Message(peer, bytes));
                    assert(events@.drop_last() =~= old(events)@);
                    true
                } else {
                    self.mark_dead(i);
                    false
                }
            },
            Err(e) => {
                match e.kind {
                    IoErrorKind::WouldBlock => {},
                    IoErrorKind::ConnectionReset => self.mark_dead(i),
                    IoErrorKind::Other => events.push(NetworkSimulationEvent::RecvError(e)),
                }
                false
            },
        }
    }

    /// Maintenance: removes every dead entry, keeping the others, with their
    /// streams, in order, and reports each removed one with a `Disconnect`, in
    /// table order.
    pub fn reap_dead(&mut self, events: &mut Vec<NetworkSimulationEvent>)
        requires
            old(self).wf(),
        ensures
            final(self).wf(),
            final(self).conns() == live_only(old(self).conns()),
            final(self).handles() == live_handles(old(self).conns(), old(self).handles()),
            final(events)@ == old(events)@ + disconnect_events(dead_addrs(old(self).conns())),
            final(self).listener() == old(self).listener(),
            final(self).buffer_size() == old(self).buffer_size(),
    {
        let ghost orig = self.streams@;
        let ghost t = self.conns();
        let ghost h = self.handles();
        let ghost ev0 = events@;
        let len0 = self.streams.len();
        let mut rest: Vec<StreamConnection<S>> = Vec::new();
        std::mem::swap(&mut rest, &mut self.streams);
        let mut kept: Vec<StreamConnection<S>> = Vec::new();
        let ghost n = t.len();
        let mut k: usize = 0;
        assert(t.subrange(0, 0) =~= Seq::<(PeerAddr, bool)>::empty());
        assert(kept@.map_values(|c: StreamConnection<S>| conn_view(c)) =~= Seq::<(PeerAddr, bool)>::empty());
        assert(kept@.map_values(|c: StreamConnection<S>| c.stream) =~= Seq::<S>::empty());
        assert(disconnect_events(Seq::<PeerAddr>::empty()) =~= Seq::<
            NetworkSimulationEvent,
        >::empty());
        assert(rest@ =~= orig.subrange(0, n as int));
        while rest.len() > 0
            invariant
                k <= n,
                n == t.len(),
                n == len0,
                n == orig.len(),
                t == orig.map_values(|c: StreamConnection<S>| conn_view(c)),
                h == orig.map_values(|c: StreamConnection<S>| c.stream),
                rest@ == orig.subrange(k as int, n as int),
                kept@.map_values(|c: StreamConnection<S>| conn_view(c)) == live_only(
                    t.subrange(0, k as int),
                ),
                kept@.map_values(|c: StreamConnection<S>| c.stream) == live_handles(
                    t.subrange(0, k as int),
                    h.subrange(0, k as int),
                ),
                events@ == ev0 + disconnect_events(dead_addrs(t.subrange(0, k as int))),
            decreases rest@.len(),
        {
            let c = rest.remove(0);
            assert(c == orig[k as int]);
            assert(t[k as int] == conn_view(c));
            assert(h[k as int] == c.stream);
            let ghost pre = t.subrange(0, k as int);
            let ghost next = t.subrange(0, k as int + 1);
            let ghost hpre = h.subrange(0, k as int);
            let ghost hnext = h.subrange(0, k as int + 1);
            assert(next.drop_last() =~= pre);
            assert(hnext.drop_last() =~= hpre);
            assert(next.last() == conn_view(c));
            assert(hnext.last() == c.stream);
            assert(rest@ =~= orig.subrange(k as int + 1, n as int));
            if c.live {
                let ghost kv = kept@;
                kept.push(c);
                assert(kept@.map_values(|c: StreamConnection<S>| conn_view(c)) =~= kv.map_values(
                    |c: StreamConnection<S>| conn_view(c),
                ).push(t[k as int]));
                assert(kept@.map_values(|c: StreamConnection<S>| c.stream) =~= kv.map_values(
                    |c: StreamConnection<S>| c.stream,
                ).push(h[k as int]));
            } else {
                let a = c.addr;
                events.push(NetworkSimulationEvent::Disconnect(a));
                assert(disconnect_events(dead_addrs(next)) =~= disconnect_events(
                    dead_addrs(pre),
                ).push(NetworkSimulationEvent::Disconnect(a)));
            }
            k = k + 1;
        }
        assert(t.subrange(0, n as int) =~= t);
        assert(h.subrange(0, n as int) =~= h);
        self.streams = kept;
        proof {
            lemma_live_only_unique(t);
            lemma_live_lengths(t, h);
        }
    }

    /// Where to send `message`: an error where the stream backend cannot give
    /// its delivery; else the entry for its destination, or, where there is
    /// none, the word to connect first.
    pub fn route_message(&self, message: &Message) -> (r: Result<StreamRoute, ConfigurationError>)
        ensures
            match r {
                Err(e) => !stream_supported(message.delivery) && e.delivery == message.delivery,
                Ok(StreamRoute::Write(i)) => stream_supported(message.delivery) && i
                    < self.conns().len() && self.conns()[i as int].0 == message.destination,
                Ok(StreamRoute::Connect) => stream_supported(message.delivery) && forall|j: int|
                    0 <= j < self.conns().len() ==> self.conns()[j].0 != message.destination,
            },
    {
        match message.delivery {
            DeliveryRequirement::ReliableOrdered(_) | DeliveryRequirement::Default => {
                match self.get_stream(message.destination) {
                    Some(i) => Ok(StreamRoute::Write(i)),
                    None => Ok(StreamRoute::Connect),
                }
            },
            d => Err(ConfigurationError { delivery: d }),
        }
    }
}

impl<L, S> Default for TcpNetworkResource<L, S> {
    /// No listener, no connections and an empty receive buffer.
    fn default() -> (r: Self)
        ensures
            r.wf(),
            r.conns().len() == 0,
            r.listener() is None,
            r.buffer_size() == 0,
    {
        TcpNetworkResource::new(None, 0)
    }
}

proof fn lemma_live_lengths<S>(t: Seq<(PeerAddr, bool)>, h: Seq<S>)
    requires
        t.len() == h.len(),
    ensures
        live_handles(t, h).len() == live_only(t).len(),
    decreases t.len(),
{
    if t.len() > 0 {
        lemma_live_lengths(t.drop_last(), h.drop_last());
    }
}

/// Whether the stream backend ignores a stream number the delivery carries:
/// streams are not a notion of byte streams.
pub fn stream_id_ignored(delivery: DeliveryRequirement) -> (r: bool)
    ensures
        r == (delivery is ReliableOrdered && delivery->ReliableOrdered_0 is Some),
{
    match delivery {
        DeliveryRequirement::ReliableOrdered(Some(_)) => true,
        _ => false,
    }
}

/// The event a write that took no byte of a non-empty rest becomes.
pub open spec fn is_stalled_write(e: NetworkSimulationEvent, message: Message) -> bool {
    match e {
        NetworkSimulationEvent::SendError(f, m) => m == message && f.kind == IoErrorKind::Other,
        _ => false,
    }
}

/// Records the outcome of one write of `message.payload[written..]` to its
/// stream. Where bytes are left, the message comes back with the new count of
/// bytes written, for the next write; a failure, or a write that takes no
/// byte of a non-empty rest, becomes a `SendError` that carries the message;
/// a complete write gives nothing back and adds no event.
pub fn record_write(
    message: Message,
    written: usize,
    result: Result<usize, IoFailure>,
    events: &mut Vec<NetworkSimulationEvent>,
) -> (r: Option<(Message, usize)>)
    requires
        written <= message.payload@.len(),
        match result {
            Ok(n) => n <= message.payload@.len() - written,
            Err(_) => true,
        },
    ensures
        match result {
            Err(e) => r is None && final(events)@ == old(events)@.push(
                NetworkSimulationEvent::SendError(e, message),
            ),
            Ok(n) => if written + n == message.payload@.len() {
                r is None && final(events)@ == old(events)@
            } else if n == 0 {
                r is None && final(events)@.len() == old(events)@.len() + 1
                    && final(events)@.drop_last() == old(events)@
                    && is_stalled_write(final(events)@.last(), message)
            } else {
                r == Some((message, (written + n) as usize)) && final(events)@ == old(events)@
            },
        },
{
    match result {
        Err(e) => {
            events.push(NetworkSimulationEvent::SendError(e, message));
            None
        },
        Ok(n) => {
            if n == message.payload.len() - written {
                None
            } else if n == 0 {
                let e = IoFailure {
                    kind: IoErrorKind::Other,
                    description: String::from_str("failed to write the whole message"),
                };
                events.push(NetworkSimulationEvent::SendError(e, message));
                assert(events@.drop_last() =~= old(events)@);
                None
            } else {
                Some((message, written + n))
            }
        },
    }
}

/// The first `n` bytes of `buf`.
fn copy_prefix(buf: &[u8], n: usize) -> (r: Vec<u8>)
    requires
        n <= buf@.len(),
    ensures
        r@ == buf@.subrange(0, n as int),
{
    let mut r: Vec<u8> = Vec::new();
    let mut i: usize = 0;
    while i < n
        invariant
            i <= n,
            n <= buf@.len(),
            r@ == buf@.subrange(0, i as int),
        decreases n - i,
    {
        r.push(buf[i]);
        i = i + 1;
        assert(r@ =~= buf@.subrange(0, i as int));
    }
    r
}

} // verus!

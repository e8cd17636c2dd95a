use amethyst_network::addr::PeerAddr;
use amethyst_network::events::{IoErrorKind, IoFailure, NetworkSimulationEvent};
use amethyst_network::message::Message;
use amethyst_network::requirements::DeliveryRequirement;
use amethyst_network::tcp::{record_write, stream_id_ignored, StreamRoute, TcpNetworkResource};
use amethyst_network::transport::TransportResource;

type Net = TcpNetworkResource<(), u32>;

fn failure(kind: IoErrorKind) -> IoFailure {
    IoFailure { kind, description: "failure".to_string() }
}

fn peer(n: u8) -> PeerAddr {
    PeerAddr::v4(192, 168, 0, n, 5000)
}

fn count_disconnects(events: &[NetworkSimulationEvent], a: PeerAddr) -> usize {
    events
        .iter()
        .filter(|e| matches!(e, NetworkSimulationEvent::Disconnect(x) if *x == a))
        .count()
}

#[test]
fn unreachable_destination_gives_connection_error() {
    let dest = PeerAddr::v4(10, 0, 0, 1, 9000);
    let mut q = TransportResource::new();
    q.send(dest, b"ping".to_vec());
    let mut net = Net::new(None, 64);
    let mut events = Vec::new();
    assert!(net.needs_connection(dest));
    net.record_connect(dest, Err(failure(IoErrorKind::Other)), &mut events);
    assert_eq!(net.len(), 0);
    assert!(matches!(events[0], NetworkSimulationEvent::ConnectionError(_, Some(a)) if a == dest));
    let m = q.drain_messages_to_send(true).remove(0);
    assert_eq!(net.route_message(&m), Ok(StreamRoute::Connect));
}

#[test]
fn reachable_destination_gets_live_entry_and_write() {
    let dest = PeerAddr::v4(10, 0, 0, 1, 9000);
    let mut q = TransportResource::new();
    q.send(dest, b"ping".to_vec());
    let mut net = Net::new(None, 64);
    let mut events = Vec::new();
    assert_eq!(net.record_connect(dest, Ok(11), &mut events), Some(0));
    assert!(events.is_empty());
    assert_eq!(net.len(), 1);
    assert_eq!(net.entry(0), (dest, true));
    assert!(!net.needs_connection(dest));
    let m = q.drain_messages_to_send(true).remove(0);
    assert_eq!(net.route_message(&m), Ok(StreamRoute::Write(0)));
    assert_eq!(*net.stream_mut(0), 11);
    assert!(record_write(m, 0, Ok(4), &mut events).is_none());
    assert!(events.is_empty());
}

#[test]
fn unsupported_delivery_is_configuration_error() {
    let mut net = Net::new(None, 64);
    let mut events = Vec::new();
    net.record_connect(peer(1), Ok(1), &mut events);
    for d in [
        DeliveryRequirement::Unreliable,
        DeliveryRequirement::UnreliableSequenced(None),
        DeliveryRequirement::Reliable,
        DeliveryRequirement::ReliableSequenced(Some(1)),
    ] {
        let m = Message::new(peer(1), vec![1], d);
        let r = net.route_message(&m);
        assert_eq!(r.map_err(|e| e.delivery), Err(d));
    }
    let m = Message::new(peer(1), vec![1], DeliveryRequirement::ReliableOrdered(Some(3)));
    assert_eq!(net.route_message(&m), Ok(StreamRoute::Write(0)));
    assert!(stream_id_ignored(m.delivery));
    assert!(!stream_id_ignored(DeliveryRequirement::ReliableOrdered(None)));
    assert!(!stream_id_ignored(DeliveryRequirement::Default));
}

#[test]
fn write_failure_is_send_error() {
    let mut events = Vec::new();
    let m = Message::new(peer(2), b"abc".to_vec(), DeliveryRequirement::Default);
    assert!(record_write(m, 0, Err(failure(IoErrorKind::Other)), &mut events).is_none());
    match &events[0] {
        NetworkSimulationEvent::SendError(_, msg) => assert_eq!(msg.payload, b"abc".to_vec()),
        other => panic!("unexpected event {:?}", other),
    }
}

#[test]
fn zero_byte_read_disconnects_one_tick_later() {
    let a = peer(3);
    let mut net = Net::new(None, 8);
    let mut events = Vec::new();
    net.record_connect(a, Ok(5), &mut events);
    let buf = vec![0u8; 8];
    let p = net.record_peer_addr(0, Ok(a));
    assert_eq!(p, Some(a));
    let again = net.record_read(0, a, Ok(0), &buf, &mut events);
    assert!(!again);
    assert_eq!(net.len(), 1);
    assert_eq!(net.entry(0), (a, false));
    assert_eq!(count_disconnects(&events, a), 0);

    let mut next_tick = Vec::new();
    net.reap_dead(&mut next_tick);
    assert_eq!(net.len(), 0);
    assert_eq!(count_disconnects(&next_tick, a), 1);
    assert_eq!(next_tick.len(), 1);

    let mut later = Vec::new();
    net.reap_dead(&mut later);
    assert!(later.is_empty());
}

#[test]
fn reads_surface_bytes_and_stop_on_would_block() {
    let a = peer(4);
    let mut net = Net::new(None, 4);
    let mut events = Vec::new();
    net.record_connect(a, Ok(5), &mut events);
    let buf = vec![1u8, 2, 3, 4];
    assert!(net.record_read(0, a, Ok(3), &buf, &mut events));
    assert!(!net.record_read(0, a, Err(failure(IoErrorKind::WouldBlock)), &buf, &mut events));
    assert_eq!(events.len(), 1);
    match &events[0] {
        NetworkSimulationEvent::Message(x, bytes) => {
            assert_eq!(*x, a);
            assert_eq!(bytes, &vec![1u8, 2, 3]);
        }
        other => panic!("unexpected event {:?}", other),
    }
    assert_eq!(net.entry(0), (a, true));
}

#[test]
fn reset_marks_dead_and_other_error_is_recv_error() {
    let a = peer(5);
    let b = peer(6);
    let mut net = Net::new(None, 4);
    let mut events = Vec::new();
    net.record_connect(a, Ok(1), &mut events);
    net.record_connect(b, Ok(2), &mut events);
    let buf = vec![0u8; 4];
    assert!(!net.record_read(0, a, Err(failure(IoErrorKind::ConnectionReset)), &buf, &mut events));
    assert!(events.is_empty());
    assert_eq!(net.entry(0), (a, false));
    assert!(!net.record_read(1, b, Err(failure(IoErrorKind::Other)), &buf, &mut events));
    assert!(matches!(events[0], NetworkSimulationEvent::RecvError(_)));
    assert_eq!(net.entry(1), (b, true));
    let mut ev = Vec::new();
    net.reap_dead(&mut ev);
    assert_eq!(net.len(), 1);
    assert_eq!(net.entry(0), (b, true));
    assert_eq!(count_disconnects(&ev, a), 1);
}

#[test]
fn unresolvable_peer_marks_dead() {
    let a = peer(7);
    let mut net = Net::new(None, 4);
    let mut events = Vec::new();
    net.record_connect(a, Ok(1), &mut events);
    assert_eq!(net.record_peer_addr(0, Err(failure(IoErrorKind::Other))), None);
    assert_eq!(net.entry(0), (a, false));
    assert!(events.is_empty());
}

#[test]
fn accept_loop_outcomes() {
    let mut net: Net = Net::new(Some(()), 4);
    assert!(net.get().is_some());
    let mut events = Vec::new();
    assert!(net.record_accept(Ok((3, peer(8))), &mut events));
    assert!(matches!(events[0], NetworkSimulationEvent::Connect(a) if a == peer(8)));
    assert!(!net.record_accept(Err(failure(IoErrorKind::WouldBlock)), &mut events));
    assert_eq!(events.len(), 1);
    assert!(!net.record_accept(Err(failure(IoErrorKind::Other)), &mut events));
    assert!(matches!(events[1], NetworkSimulationEvent::ConnectionError(_, None)));
    assert_eq!(net.len(), 1);
    net.drop_listener();
    assert!(net.get().is_none());
}

#[test]
fn same_address_keeps_one_entry() {
    let a = peer(9);
    let mut net = Net::new(None, 4);
    let mut events = Vec::new();
    net.record_connect(a, Ok(1), &mut events);
    let buf = vec![0u8; 4];
    net.record_read(0, a, Ok(0), &buf, &mut events);
    assert!(net.record_accept(Ok((2, a)), &mut events));
    assert_eq!(net.len(), 1);
    assert_eq!(net.entry(0), (a, true));
    assert_eq!(*net.stream_mut(0), 2);
}

#[test]
fn drop_stream_removes_entry() {
    let mut net = Net::new(None, 4);
    let mut events = Vec::new();
    net.record_connect(peer(1), Ok(1), &mut events);
    net.record_connect(peer(2), Ok(2), &mut events);
    let c = net.drop_stream(peer(1)).unwrap();
    assert_eq!(c.stream, 1);
    assert_eq!(net.len(), 1);
    assert_eq!(net.get_stream(peer(2)), Some(0));
    assert!(net.drop_stream(peer(1)).is_none());
    assert_eq!(net.recv_buffer_size(), 4);
}

#[test]
fn short_write_hands_back_the_rest() {
    let mut events = Vec::new();
    let m = Message::new(peer(2), b"abcdef".to_vec(), DeliveryRequirement::Default);
    let (m, written) = record_write(m, 0, Ok(2), &mut events).unwrap();
    assert_eq!(written, 2);
    let (m, written) = record_write(m, written, Ok(3), &mut events).unwrap();
    assert_eq!(written, 5);
    assert!(record_write(m, written, Ok(1), &mut events).is_none());
    assert!(events.is_empty());
}

#[test]
fn write_taking_nothing_is_send_error() {
    let mut events = Vec::new();
    let m = Message::new(peer(2), b"abc".to_vec(), DeliveryRequirement::Default);
    assert!(record_write(m, 1, Ok(0), &mut events).is_none());
    match &events[0] {
        NetworkSimulationEvent::SendError(e, msg) => {
            assert_eq!(e.kind, IoErrorKind::Other);
            assert_eq!(msg.payload, b"abc".to_vec());
        }
        other => panic!("unexpected event {:?}", other),
    }
}

#[test]
fn connected_and_accepted_streams_are_stored_for_their_address() {
    let mut net = Net::new(None, 4);
    let mut events = Vec::new();
    assert_eq!(net.record_connect(peer(1), Ok(10), &mut events), Some(0));
    assert!(net.record_accept(Ok((20, peer(2))), &mut events));
    assert_eq!(net.record_connect(peer(1), Err(failure(IoErrorKind::Other)), &mut events), None);
    let i = net.get_stream(peer(2)).unwrap();
    assert_eq!(*net.stream_mut(i), 20);
    let j = net.get_stream(peer(1)).unwrap();
    assert_eq!(*net.stream_mut(j), 10);
    let buf = vec![0u8; 4];
    net.record_read(j, peer(1), Ok(0), &buf, &mut events);
    let mut ev = Vec::new();
    net.reap_dead(&mut ev);
    assert_eq!(net.len(), 1);
    assert_eq!(*net.stream_mut(0), 20);
}

#[test]
fn default_resource_is_empty() {
    let mut net: Net = Net::default();
    assert_eq!(net.len(), 0);
    assert!(net.get().is_none());
    assert_eq!(net.recv_buffer_size(), 0);
    net.set_listener(());
    assert_eq!(net.get(), Some(&()));
}

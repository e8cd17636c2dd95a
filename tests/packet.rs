use amethyst_network::addr::PeerAddr;
use amethyst_network::events::{IoErrorKind, IoFailure, NetworkSimulationEvent};
use amethyst_network::laminar::{
    packet_kind, receive_packet_events, record_packet_send, LaminarSocketResource, PacketEvent,
    PacketKind, PacketSendFailure,
};
use amethyst_network::message::Message;
use amethyst_network::requirements::DeliveryRequirement;
use amethyst_network::transport::TransportResource;

fn peer(n: u8) -> PeerAddr {
    PeerAddr::v4(127, 0, 0, n, 4000)
}

#[test]
fn delivery_maps_to_packet_kind() {
    assert_eq!(packet_kind(DeliveryRequirement::Unreliable), PacketKind::Unreliable);
    assert_eq!(
        packet_kind(DeliveryRequirement::UnreliableSequenced(Some(2))),
        PacketKind::UnreliableSequenced(Some(2))
    );
    assert_eq!(packet_kind(DeliveryRequirement::Reliable), PacketKind::ReliableUnordered);
    assert_eq!(
        packet_kind(DeliveryRequirement::ReliableSequenced(None)),
        PacketKind::ReliableSequenced(None)
    );
    assert_eq!(
        packet_kind(DeliveryRequirement::ReliableOrdered(Some(7))),
        PacketKind::ReliableOrdered(Some(7))
    );
    assert_eq!(packet_kind(DeliveryRequirement::Default), PacketKind::ReliableOrdered(None));
}

#[test]
fn three_inbound_packets_become_three_messages_in_order() {
    let incoming = vec![
        PacketEvent::Packet(peer(1), b"one".to_vec()),
        PacketEvent::Packet(peer(2), b"two".to_vec()),
        PacketEvent::Packet(peer(1), b"three".to_vec()),
    ];
    let mut events = Vec::new();
    receive_packet_events(incoming, &mut events);
    assert_eq!(events.len(), 3);
    let expected = [(peer(1), b"one".to_vec()), (peer(2), b"two".to_vec()), (peer(1), b"three".to_vec())];
    for (e, (a, b)) in events.iter().zip(expected.iter()) {
        match e {
            NetworkSimulationEvent::Message(x, bytes) => {
                assert_eq!(x, a);
                assert_eq!(bytes, b);
            }
            other => panic!("unexpected event {:?}", other),
        }
    }
}

#[test]
fn connect_and_timeout_become_connect_and_disconnect() {
    let mut events = Vec::new();
    receive_packet_events(vec![PacketEvent::Connect(peer(3)), PacketEvent::Timeout(peer(3))], &mut events);
    assert!(matches!(events[0], NetworkSimulationEvent::Connect(a) if a == peer(3)));
    assert!(matches!(events[1], NetworkSimulationEvent::Disconnect(a) if a == peer(3)));
}

#[test]
fn io_send_failure_is_reported_with_message() {
    let mut events = Vec::new();
    let m = Message::new(peer(4), b"x".to_vec(), DeliveryRequirement::Reliable);
    let e = IoFailure { kind: IoErrorKind::Other, description: "broken pipe".to_string() };
    record_packet_send(m, Err(PacketSendFailure::Io(e)), &mut events);
    assert_eq!(events.len(), 1);
    match &events[0] {
        NetworkSimulationEvent::SendError(err, msg) => {
            assert_eq!(err.description, "broken pipe");
            assert_eq!(msg.payload, b"x".to_vec());
            assert_eq!(msg.destination, peer(4));
        }
        other => panic!("unexpected event {:?}", other),
    }
}

#[test]
fn internal_send_failure_and_success_add_nothing() {
    let mut events = Vec::new();
    let m = Message::new(peer(4), b"x".to_vec(), DeliveryRequirement::Reliable);
    record_packet_send(m, Err(PacketSendFailure::Internal("decode".to_string())), &mut events);
    let m = Message::new(peer(4), b"y".to_vec(), DeliveryRequirement::Reliable);
    record_packet_send(m, Ok(()), &mut events);
    assert!(events.is_empty());
}

#[test]
fn packet_backend_without_socket_takes_nothing() {
    let res: LaminarSocketResource<u32> = LaminarSocketResource::new(None);
    let mut q = TransportResource::new();
    q.send(peer(5), vec![9]);
    assert!(res.messages_to_send(&mut q, true).is_empty());
    assert!(q.has_messages());
}

#[test]
fn packet_backend_with_socket_drains_under_gate() {
    let mut res: LaminarSocketResource<u32> = LaminarSocketResource::default();
    assert!(res.get().is_none());
    res.set_socket(7);
    assert_eq!(res.get(), Some(&7));
    let mut q = TransportResource::new();
    q.send(peer(5), vec![9]);
    assert!(res.messages_to_send(&mut q, false).is_empty());
    assert!(q.has_messages());
    assert_eq!(res.messages_to_send(&mut q, true).len(), 1);
    assert!(!q.has_messages());
    res.drop_socket();
    assert!(res.get_mut().is_none());
}

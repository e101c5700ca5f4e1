use bvs_core::transport::{poll_plan, FlushOutcome, RelayRound, SendOutcome};
use bvs_core::bridge::{is_native_function, native_function_list, native_functions, unknown_function_message};
use bvs_core::peer::PeerId;
use bvs_core::transport::{
    handle_event, keep_alive_due, next_idle_ms, packet_of_values, read_step, relay_url, PeerState,
    ReadOutcome, RelayEvent, RelayPeers, ServerEvent, TransportKind,
};

#[test]
fn relay_url_adds_the_relay_query() {
    assert_eq!(relay_url("wss://host/room?next=2"), "wss://host/room?next=2&relay=1");
    assert_eq!(relay_url("wss://host/room"), "wss://host/room?relay=1");
}

#[test]
fn this_build_uses_the_relay() {
    assert_eq!(TransportKind::for_target(), TransportKind::Relay);
}

#[test]
fn peers_join_once_and_leave() {
    let a = PeerId { id: 1 };
    let b = PeerId { id: 2 };
    let mut peers = RelayPeers::new();
    assert_eq!(peers.connected_peers_count(), 0);
    peers.apply(RelayEvent::Peer(a, PeerState::Connected));
    peers.apply(RelayEvent::Peer(a, PeerState::Connected));
    peers.apply(RelayEvent::Peer(b, PeerState::Connected));
    assert_eq!(peers.connected_peers_count(), 2);
    peers.apply(RelayEvent::Peer(a, PeerState::Disconnected));
    assert_eq!(peers.connected_peers_count(), 1);
    let changes = peers.update_peers();
    assert_eq!(
        changes,
        vec![
            (a, PeerState::Connected),
            (a, PeerState::Connected),
            (b, PeerState::Connected),
            (a, PeerState::Disconnected)
        ]
    );
    assert!(peers.update_peers().is_empty());
}

#[test]
fn packets_are_handed_out_since_the_last_call() {
    let a = PeerId { id: 7 };
    let mut peers = RelayPeers::new();
    peers.apply(RelayEvent::Packet(a, vec![1, 2]));
    peers.apply(RelayEvent::Packet(a, vec![3]));
    let got = peers.receive();
    assert_eq!(got, vec![(a, vec![1, 2]), (a, vec![3])]);
    assert!(peers.receive().is_empty());
}

#[test]
fn ids_and_closing() {
    let mut peers = RelayPeers::new();
    assert_eq!(peers.id(), None);
    peers.apply(RelayEvent::IdAssigned(PeerId { id: 42 }));
    assert_eq!(peers.id(), Some(PeerId { id: 42 }));
    assert!(!peers.is_closed());
    assert!(peers.is_routine_running());
    peers.close();
    assert!(peers.is_closed());
    assert!(!peers.is_routine_running());
}

#[test]
fn server_events_become_relay_events() {
    let p = PeerId { id: 3 };
    assert!(matches!(handle_event(ServerEvent::IdAssigned(p)), Some(RelayEvent::IdAssigned(q)) if q == p));
    assert!(matches!(
        handle_event(ServerEvent::NewRelayPeer(p)),
        Some(RelayEvent::Peer(q, PeerState::Connected)) if q == p
    ));
    assert!(matches!(
        handle_event(ServerEvent::NewPeer(p)),
        Some(RelayEvent::Peer(q, PeerState::Connected)) if q == p
    ));
    assert!(matches!(
        handle_event(ServerEvent::PeerLeft(p)),
        Some(RelayEvent::Peer(q, PeerState::Disconnected)) if q == p
    ));
    assert!(handle_event(ServerEvent::Signal(p, None)).is_none());
    assert!(matches!(
        handle_event(ServerEvent::Signal(p, Some(vec![1, 256, 300]))),
        Some(RelayEvent::Packet(q, bytes)) if q == p && bytes == vec![1u8, 0, 44]
    ));
}

#[test]
fn payload_numbers_keep_their_low_byte() {
    assert_eq!(packet_of_values(&vec![0, 255, 511, 65]), vec![0u8, 255, 255, 65]);
}

#[test]
fn native_function_names_are_listed() {
    let names = native_functions();
    assert_eq!(names.len(), 36);
    let list = native_function_list();
    assert_eq!(list, names.join(","));
    assert!(list.starts_with("updater_get_and_update_last_version,updater_check_for_update,"));
    assert!(list.ends_with(",network_send_cash_out,network_rematch"));
}

#[test]
fn native_function_lookup() {
    assert!(is_native_function("network_rematch"));
    assert!(is_native_function("updater_update"));
    assert!(!is_native_function("__functions"));
    assert!(!is_native_function(""));
    assert_eq!(unknown_function_message("foo"), "unknown native function 'foo'");
}

#[test]
fn reads_decide_whether_the_connection_lives() {
    let p = PeerId { id: 9 };
    let s = read_step(ReadOutcome::Event(ServerEvent::PeerLeft(p)), false);
    assert!(s.alive && s.progressed);
    assert!(matches!(s.event, Some(RelayEvent::Peer(q, PeerState::Disconnected)) if q == p));
    let s = read_step(ReadOutcome::WouldBlock, false);
    assert!(s.alive && !s.progressed && s.event.is_none());
    let s = read_step(ReadOutcome::WouldBlock, true);
    assert!(s.progressed);
    for o in [ReadOutcome::CloseFrame, ReadOutcome::ConnectionClosed, ReadOutcome::Failed] {
        let s = read_step(o, false);
        assert!(!s.alive && s.progressed && s.event.is_none());
    }
    for o in [ReadOutcome::Unreadable, ReadOutcome::Control, ReadOutcome::Binary] {
        let s = read_step(o, false);
        assert!(s.alive && s.progressed && s.event.is_none());
    }
}

#[test]
fn keep_alives_and_idle_pauses() {
    assert!(!keep_alive_due(14_999));
    assert!(keep_alive_due(15_000));
    assert_eq!(next_idle_ms(true, 40), 2);
    assert_eq!(next_idle_ms(false, 2), 4);
    assert_eq!(next_idle_ms(false, 32), 40);
    assert_eq!(next_idle_ms(false, 40), 40);
}

#[test]
fn the_count_follows_each_peers_latest_event_and_closing_lasts() {
    let a = PeerId { id: 1 };
    let b = PeerId { id: 2 };
    let c = PeerId { id: 3 };
    let mut peers = RelayPeers::new();
    peers.apply(RelayEvent::Peer(a, PeerState::Connected));
    peers.apply(RelayEvent::Peer(b, PeerState::Connected));
    assert_eq!(peers.update_peers(), vec![(a, PeerState::Connected), (b, PeerState::Connected)]);
    peers.apply(RelayEvent::Peer(b, PeerState::Disconnected));
    peers.apply(RelayEvent::Packet(a, vec![9]));
    peers.apply(RelayEvent::Peer(c, PeerState::Disconnected));
    peers.apply(RelayEvent::Peer(b, PeerState::Connected));
    peers.apply(RelayEvent::Peer(a, PeerState::Disconnected));
    assert_eq!(peers.connected_peers_count(), 1);
    assert_eq!(
        peers.update_peers(),
        vec![
            (b, PeerState::Disconnected),
            (c, PeerState::Disconnected),
            (b, PeerState::Connected),
            (a, PeerState::Disconnected)
        ]
    );
    peers.close();
    peers.apply(RelayEvent::Peer(c, PeerState::Connected));
    peers.update_peers();
    peers.receive();
    assert!(peers.is_closed());
    assert!(!peers.is_routine_running());
    assert_eq!(peers.connected_peers_count(), 2);
}

#[test]
fn a_poll_takes_packets_while_open_with_a_peer() {
    let p = poll_plan(false, 1);
    assert!(p.receive && !p.connection_lost);
    let p = poll_plan(false, 0);
    assert!(!p.receive && !p.connection_lost);
    let p = poll_plan(true, 2);
    assert!(!p.receive && p.connection_lost);
}

#[test]
fn worker_rounds_end_on_failures_and_keep_flushes_pending() {
    let r = RelayRound::start(true, false);
    assert!(!r.alive() && r.progressed());

    let mut r = RelayRound::start(false, false);
    assert!(r.alive() && !r.progressed() && !r.pending_flush());
    r.on_keep_alive(SendOutcome::WouldBlock);
    assert!(r.alive() && !r.progressed() && r.pending_flush());
    r.on_flush(FlushOutcome::WouldBlock);
    assert!(r.alive() && r.progressed() && r.pending_flush());
    r.on_flush(FlushOutcome::Flushed);
    assert!(r.alive() && !r.pending_flush());
    r.on_outgoing(SendOutcome::Failed);
    assert!(!r.alive());

    let mut r = RelayRound::start(false, true);
    assert!(r.on_read(ReadOutcome::WouldBlock).is_none());
    assert!(r.alive() && !r.progressed() && r.pending_flush());
    let e = r.on_read(ReadOutcome::Event(ServerEvent::NewRelayPeer(PeerId { id: 5 })));
    assert!(matches!(e, Some(RelayEvent::Peer(PeerId { id: 5 }, PeerState::Connected))));
    assert!(r.alive() && r.progressed());
    r.on_delivery(false);
    assert!(!r.alive());

    let mut r = RelayRound::start(false, false);
    r.on_client_gone();
    assert!(!r.alive() && r.progressed());
    let mut r = RelayRound::start(false, false);
    r.on_read(ReadOutcome::CloseFrame);
    assert!(!r.alive());
}

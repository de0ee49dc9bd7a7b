use perf_bench::client::behaviour::{Behaviour, BehaviourAction, NotConnected, PeerKey};
use perf_bench::client::handler;

fn peer(b: u8) -> PeerKey {
    PeerKey { bytes: vec![0, 36, 8, 1, b] }
}

#[test]
fn submit_to_unknown_peer_is_refused_at_once() {
    let mut reg = Behaviour::new();
    assert_eq!(reg.perf(peer(1), 10, 10), Err(NotConnected()));
    assert!(reg.poll().is_none());
    assert_eq!(NotConnected().message(), "not connected to peer");
}

#[test]
fn submit_to_connected_peer_gets_fresh_ids() {
    let mut reg = Behaviour::new();
    reg.on_connection_established(peer(1));
    assert!(reg.is_connected(&peer(1)));
    assert!(!reg.is_connected(&peer(2)));
    assert_eq!(reg.perf(peer(1), 100, 200), Ok(1));
    assert_eq!(reg.perf(peer(1), 5, 6), Ok(2));
    match reg.poll() {
        Some(BehaviourAction::NotifyHandler { peer_id, command }) => {
            assert_eq!(peer_id.bytes, peer(1).bytes);
            assert_eq!(command, handler::Command { id: 1, upload_bytes: 100, download_bytes: 200 });
        }
        other => panic!("unexpected {:?}", other),
    }
    match reg.poll() {
        Some(BehaviourAction::NotifyHandler { command, .. }) => assert_eq!(command.id, 2),
        other => panic!("unexpected {:?}", other),
    }
    assert!(reg.poll().is_none());
}

#[test]
fn refused_submit_uses_no_id() {
    let mut reg = Behaviour::new();
    reg.on_connection_established(peer(1));
    assert_eq!(reg.perf(peer(2), 1, 1), Err(NotConnected()));
    assert_eq!(reg.perf(peer(1), 1, 1), Ok(1));
    assert!(!reg.ids_exhausted());
}

#[test]
fn peer_leaves_with_its_last_connection() {
    let mut reg = Behaviour::new();
    reg.on_connection_established(peer(1));
    reg.on_connection_established(peer(1));
    reg.on_connection_established(peer(2));
    assert!(!reg.on_connection_closed(&peer(1), 1));
    assert!(reg.is_connected(&peer(1)));
    assert!(reg.on_connection_closed(&peer(1), 0));
    assert!(!reg.is_connected(&peer(1)));
    assert!(reg.is_connected(&peer(2)));
    assert!(!reg.on_connection_closed(&peer(1), 0));
    assert_eq!(reg.perf(peer(1), 1, 1), Err(NotConnected()));
}

#[test]
fn completions_are_forwarded_in_order() {
    let mut reg = Behaviour::new();
    reg.on_connection_handler_event(handler::Event { id: 2, result: Err("reset".to_string()) });
    reg.on_connection_handler_event(handler::Event { id: 1, result: Ok(()) });
    match reg.poll() {
        Some(BehaviourAction::GenerateEvent(e)) => {
            assert_eq!(e.id, 2);
            assert_eq!(e.result, Err("reset".to_string()));
        }
        other => panic!("unexpected {:?}", other),
    }
    match reg.poll() {
        Some(BehaviourAction::GenerateEvent(e)) => assert_eq!((e.id, e.result), (1, Ok(()))),
        other => panic!("unexpected {:?}", other),
    }
}

#[test]
fn peer_keys_compare_by_bytes() {
    assert!(peer(1).same_as(&peer(1)));
    assert!(!peer(1).same_as(&peer(2)));
    assert!(!peer(1).same_as(&PeerKey { bytes: vec![0, 36] }));
}

use relay_node::address::Address;
use relay_node::event_loop::{Action, BehaviourEvent, Event, EventLoop, RelayEvent};
use relay_node::identify::{IdentifyEvent, IdentifyInfo};
use relay_node::identity::PeerId;
use relay_node::liveness::LivenessEvent;
use relay_node::relay::{RejectReason, ReservationDecision};

fn peer(n: u8) -> PeerId {
    PeerId::from_bytes(vec![0, 1, n])
}

fn addr(n: u8) -> Address {
    Address::from_bytes(vec![4, 10, 0, 0, n, 6, 0x0f, 0xa1])
}

fn received(from: u8, observed: u8) -> Event {
    Event::Behaviour(BehaviourEvent::Identify(IdentifyEvent::Received {
        peer: peer(from),
        info: IdentifyInfo {
            protocol_version: "/relay/0.0.1".to_string(),
            public_key: vec![8, 1, 18, 0],
            observed_addr: addr(observed),
            listen_addrs: vec![addr(200)],
        },
    }))
}

fn bytes_of(addresses: Vec<Address>) -> Vec<Vec<u8>> {
    addresses.iter().map(|a| a.to_bytes()).collect()
}

#[test]
fn new_loop_knows_nothing() {
    let event_loop = EventLoop::new(peer(1));
    assert!(event_loop.local_peer().same(&peer(1)));
    assert!(!event_loop.is_stopped());
    assert!(event_loop.listen_addresses().is_empty());
    assert!(!event_loop.knows_peer(&peer(1)));
    assert!(event_loop.external_addresses_of(&peer(1)).is_empty());
}

#[test]
fn identify_received_records_the_observed_address_for_the_local_peer() {
    let mut event_loop = EventLoop::new(peer(1));
    let action = event_loop.dispatch(&received(2, 7));
    assert!(matches!(action, Action::AddExternalAddress(a) if a.same(&addr(7))));
    assert!(event_loop.has_external_address(&peer(1), &addr(7)));
    assert!(!event_loop.has_external_address(&peer(2), &addr(7)));
    assert!(!event_loop.has_external_address(&peer(1), &addr(200)));
    assert_eq!(bytes_of(event_loop.external_addresses_of(&peer(1))), vec![addr(7).to_bytes()]);
    assert!(event_loop.knows_peer(&peer(1)));
    assert!(!event_loop.knows_peer(&peer(2)));
}

#[test]
fn identify_received_twice_is_as_once() {
    let mut event_loop = EventLoop::new(peer(1));
    event_loop.dispatch(&received(2, 7));
    let action = event_loop.dispatch(&received(2, 7));
    assert!(matches!(action, Action::AddExternalAddress(a) if a.same(&addr(7))));
    assert_eq!(bytes_of(event_loop.external_addresses_of(&peer(1))), vec![addr(7).to_bytes()]);
    event_loop.dispatch(&received(3, 8));
    assert_eq!(
        bytes_of(event_loop.external_addresses_of(&peer(1))),
        vec![addr(7).to_bytes(), addr(8).to_bytes()]
    );
}

#[test]
fn new_listen_addr_is_recorded_once_and_reported() {
    let mut event_loop = EventLoop::new(peer(1));
    let action = event_loop.dispatch(&Event::NewListenAddr { address: addr(1) });
    assert!(matches!(action, Action::ReportListenAddress(a) if a.same(&addr(1))));
    event_loop.dispatch(&Event::NewListenAddr { address: addr(2) });
    let again = event_loop.dispatch(&Event::NewListenAddr { address: addr(1) });
    assert!(matches!(again, Action::ReportListenAddress(a) if a.same(&addr(1))));
    assert_eq!(bytes_of(event_loop.listen_addresses()), vec![addr(1).to_bytes(), addr(2).to_bytes()]);
    assert!(!event_loop.knows_peer(&peer(1)));
}

#[test]
fn other_events_are_surfaced_and_change_nothing() {
    let mut event_loop = EventLoop::new(peer(1));
    event_loop.dispatch(&Event::NewListenAddr { address: addr(1) });
    event_loop.dispatch(&received(2, 7));
    let others = vec![
        Event::IncomingConnection { peer: peer(2) },
        Event::ExpiredListenAddr { address: addr(1) },
        Event::ConnectionError { peer: peer(2) },
        Event::Behaviour(BehaviourEvent::Liveness { peer: peer(2), event: LivenessEvent::PeerUnresponsive }),
        Event::Behaviour(BehaviourEvent::Liveness { peer: peer(2), event: LivenessEvent::Latency { rtt_millis: 3 } }),
        Event::Behaviour(BehaviourEvent::Identify(IdentifyEvent::Sent { peer: peer(2) })),
        Event::Behaviour(BehaviourEvent::Identify(IdentifyEvent::Failed { peer: peer(2) })),
        Event::Behaviour(BehaviourEvent::Relay(RelayEvent::ReservationAccepted { requester: peer(2), target: peer(3) })),
        Event::Behaviour(BehaviourEvent::Relay(RelayEvent::ReservationRejected {
            requester: peer(2),
            target: peer(3),
            reason: RejectReason::CapacityExceeded,
        })),
    ];
    for event in &others {
        assert!(matches!(event_loop.dispatch(event), Action::Surface));
        assert!(!event_loop.is_stopped());
        assert_eq!(bytes_of(event_loop.listen_addresses()), vec![addr(1).to_bytes()]);
        assert_eq!(bytes_of(event_loop.external_addresses_of(&peer(1))), vec![addr(7).to_bytes()]);
        assert!(!event_loop.knows_peer(&peer(2)));
    }
}

#[test]
fn transport_failure_and_shutdown_end_the_loop() {
    for fatal in [Event::TransportFailure, Event::Shutdown] {
        let mut event_loop = EventLoop::new(peer(1));
        assert!(matches!(event_loop.dispatch(&fatal), Action::Stop));
        assert!(event_loop.is_stopped());
    }
}

#[test]
fn nothing_changes_after_the_end() {
    let mut event_loop = EventLoop::new(peer(1));
    event_loop.dispatch(&Event::Shutdown);
    assert!(matches!(event_loop.dispatch(&received(2, 7)), Action::Stop));
    assert!(matches!(event_loop.dispatch(&Event::NewListenAddr { address: addr(1) }), Action::Stop));
    assert!(matches!(event_loop.dispatch(&Event::ConnectionError { peer: peer(2) }), Action::Stop));
    assert!(event_loop.is_stopped());
    assert!(!event_loop.knows_peer(&peer(1)));
    assert!(event_loop.listen_addresses().is_empty());
}

#[test]
fn add_external_address_is_idempotent_and_for_any_peer() {
    let mut event_loop = EventLoop::new(peer(1));
    event_loop.add_external_address(peer(5), addr(1));
    event_loop.add_external_address(peer(5), addr(1));
    event_loop.add_external_address(peer(5), addr(2));
    assert!(event_loop.has_external_address(&peer(5), &addr(1)));
    assert_eq!(
        bytes_of(event_loop.external_addresses_of(&peer(5))),
        vec![addr(1).to_bytes(), addr(2).to_bytes()]
    );
    assert!(event_loop.knows_peer(&peer(5)));
    assert!(!event_loop.knows_peer(&peer(1)));
}

#[test]
fn relay_event_reports_the_answer() {
    let accepted = RelayEvent::answered(peer(1), peer(2), ReservationDecision::Accepted);
    assert!(matches!(accepted, RelayEvent::ReservationAccepted { requester, target }
        if requester.same(&peer(1)) && target.same(&peer(2))));
    let refused = RelayEvent::answered(
        peer(1),
        peer(2),
        ReservationDecision::Rejected(RejectReason::TargetUnreachable),
    );
    assert!(matches!(refused, RelayEvent::ReservationRejected { requester, target, reason }
        if requester.same(&peer(1)) && target.same(&peer(2)) && reason == RejectReason::TargetUnreachable));
}

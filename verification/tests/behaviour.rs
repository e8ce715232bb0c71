use relay_node::address::Address;
use relay_node::behaviour::BehaviourSet;
use relay_node::external::ExternalAddressSet;
use relay_node::identity::PeerId;
use relay_node::liveness::{LivenessEvent, ProbeOutcome};
use relay_node::relay::{
    Direction, RejectReason, RelayConfig, ReservationDecision, ReservationState,
};

fn peer(n: u8) -> PeerId {
    PeerId::from_bytes(vec![0, 1, n])
}

fn addr(n: u8) -> Address {
    Address::from_bytes(vec![4, 10, 0, 0, n, 6, 0x0f, 0xa1])
}

fn set(max: usize) -> BehaviourSet {
    BehaviourSet::new(RelayConfig { max_reservations: max, reservation_duration: 100 }, 2).unwrap()
}

#[test]
fn behaviour_set_needs_a_positive_threshold() {
    assert!(BehaviourSet::new(RelayConfig::default(), 0).is_none());
    let set = BehaviourSet::new(RelayConfig::default(), 3).unwrap();
    assert_eq!(set.liveness.threshold(), 3);
    assert_eq!(set.relay.config(), RelayConfig::default());
    assert_eq!(set.relay.live_reservations(), 0);
}

#[test]
fn request_towards_unknown_target_is_unreachable() {
    let mut set = set(4);
    let addresses = ExternalAddressSet::new();
    set.on_connection_established(peer(1));
    assert_eq!(
        set.handle_reservation_request(peer(1), peer(2), &addresses, 0),
        ReservationDecision::Rejected(RejectReason::TargetUnreachable)
    );
    assert_eq!(set.relay.state_of(&peer(1), &peer(2)), None);
    assert_eq!(
        set.handle_reservation_request(peer(9), peer(2), &addresses, 0),
        ReservationDecision::Rejected(RejectReason::TargetUnreachable)
    );
}

#[test]
fn request_of_a_peer_that_is_not_connected_is_not_authorized() {
    let mut set = set(4);
    let addresses = ExternalAddressSet::new();
    set.on_connection_established(peer(2));
    assert_eq!(
        set.handle_reservation_request(peer(1), peer(2), &addresses, 0),
        ReservationDecision::Rejected(RejectReason::NotAuthorized)
    );
}

#[test]
fn request_towards_connected_target_is_granted() {
    let mut set = set(4);
    let addresses = ExternalAddressSet::new();
    set.on_connection_established(peer(1));
    set.on_connection_established(peer(2));
    assert_eq!(set.handle_reservation_request(peer(1), peer(2), &addresses, 5), ReservationDecision::Accepted);
    assert_eq!(set.relay.reservation(&peer(1), &peer(2)).unwrap().expiry(), 105);
}

#[test]
fn request_towards_target_with_observed_address_is_granted() {
    let mut set = set(4);
    let mut addresses = ExternalAddressSet::new();
    addresses.add(peer(2), addr(1));
    set.on_connection_established(peer(1));
    assert_eq!(set.handle_reservation_request(peer(1), peer(2), &addresses, 5), ReservationDecision::Accepted);
    assert_eq!(
        set.handle_reservation_request(peer(1), peer(3), &addresses, 5),
        ReservationDecision::Rejected(RejectReason::TargetUnreachable)
    );
}

#[test]
fn request_beyond_capacity_of_the_set_is_refused() {
    let mut set = set(1);
    let addresses = ExternalAddressSet::new();
    for n in 1..=3 {
        set.on_connection_established(peer(n));
    }
    assert_eq!(set.handle_reservation_request(peer(1), peer(2), &addresses, 0), ReservationDecision::Accepted);
    assert_eq!(
        set.handle_reservation_request(peer(3), peer(2), &addresses, 0),
        ReservationDecision::Rejected(RejectReason::CapacityExceeded)
    );
}

#[test]
fn closed_connection_releases_reservations_and_stops_monitoring() {
    let mut set = set(4);
    let addresses = ExternalAddressSet::new();
    for n in 1..=3 {
        set.on_connection_established(peer(n));
    }
    set.handle_reservation_request(peer(1), peer(2), &addresses, 0);
    set.handle_reservation_request(peer(3), peer(1), &addresses, 0);
    set.handle_reservation_request(peer(2), peer(3), &addresses, 0);
    set.relay.activate(&peer(1), &peer(2), 1);
    set.liveness.record(&peer(1), ProbeOutcome::Missed);
    set.on_connection_closed(&peer(1));
    assert!(!set.liveness.is_connected(&peer(1)));
    assert!(set.liveness.is_connected(&peer(2)));
    assert_eq!(set.relay.state_of(&peer(1), &peer(2)), Some(ReservationState::Released));
    assert_eq!(set.relay.state_of(&peer(3), &peer(1)), Some(ReservationState::Released));
    assert_eq!(set.relay.state_of(&peer(2), &peer(3)), Some(ReservationState::Requested));
    assert!(set.relay.forward(&peer(1), &peer(2), Direction::ToTarget, 2).is_err());
    assert_eq!(set.liveness.record(&peer(1), ProbeOutcome::Missed), None);
}

#[test]
fn established_connection_is_monitored() {
    let mut set = set(4);
    set.on_connection_established(peer(1));
    assert_eq!(set.liveness.record(&peer(1), ProbeOutcome::Missed), None);
    assert_eq!(set.liveness.record(&peer(1), ProbeOutcome::Missed), Some(LivenessEvent::PeerUnresponsive));
    assert_eq!(set.liveness.record(&peer(1), ProbeOutcome::Missed), None);
}

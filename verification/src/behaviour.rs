//! The behaviour set: the relay and liveness behaviours of a node, and what
//! connects them to the peers that are connected.

use crate::external::{peer_known, ExternalAddressSet};
use crate::identity::PeerId;
use crate::liveness::{connected, disconnected, is_connected, Liveness, LivenessView};
use crate::relay::{
    after_request, decide, released_peer, Relay, RelayConfig, RelayView, ReservationDecision,
};
use vstd::prelude::*;

verus! {

/// The behaviour set, as plain values.
pub struct BehaviourView {
    pub relay: RelayView,
    pub liveness: LivenessView,
}

/// The behaviours that are attached to every open connection.
#[derive(Debug)]
pub struct BehaviourSet {
    pub relay: Relay,
    pub liveness: Liveness,
}

impl View for BehaviourSet {
    type V = BehaviourView;

    open spec fn view(&self) -> BehaviourView {
        BehaviourView { relay: self.relay@, liveness: self.liveness@ }
    }
}

/// Whether a reservation request of `requester` is authorized: the peer is
/// connected, so its identifier was proved in a handshake.
pub open spec fn is_authorized(state: BehaviourView, requester: Seq<u8>) -> bool {
    is_connected(state.liveness.peers, requester)
}

/// Whether `target` can be reached: it is connected, or an address was
/// observed for it.
pub open spec fn is_reachable(
    state: BehaviourView,
    addresses: Set<(Seq<u8>, Seq<u8>)>,
    target: Seq<u8>,
) -> bool {
    is_connected(state.liveness.peers, target) || peer_known(addresses, target)
}

impl BehaviourSet {
    /// Both behaviours are well formed.
    pub open spec fn wf(&self) -> bool {
        self.relay.wf() && self.liveness.wf()
    }

    /// The behaviours of a node to which no peer is connected. There are
    /// none for a liveness threshold of zero.
    pub fn new(relay: RelayConfig, liveness_threshold: u64) -> (set: Option<BehaviourSet>)
        ensures
            set is Some <==> liveness_threshold > 0,
            set is Some ==> set->Some_0.wf() && set->Some_0@ == (BehaviourView {
                relay: RelayView { config: relay, reservations: Seq::empty() },
                liveness: LivenessView { threshold: liveness_threshold, peers: Seq::empty() },
            }),
    {
        match Liveness::new(liveness_threshold) {
            Some(liveness) => Some(BehaviourSet { relay: Relay::new(relay), liveness }),
            None => None,
        }
    }

    /// Attaches the behaviours to the connection that was established with
    /// `peer`.
    pub fn on_connection_established(&mut self, peer: PeerId)
        requires
            old(self).wf(),
        ensures
            final(self).wf(),
            final(self)@ == (BehaviourView {
                liveness: LivenessView {
                    peers: connected(
                        old(self)@.liveness.peers,
                        peer@,
                        old(self)@.liveness.threshold,
                    ),
                    ..old(self)@.liveness
                },
                ..old(self)@
            }),
    {
        self.liveness.connect(peer);
    }

    /// Detaches the behaviours from the connection to `peer` that was closed:
    /// the peer is no longer monitored, and every reservation that it takes
    /// part in is released.
    pub fn on_connection_closed(&mut self, peer: &PeerId)
        requires
            old(self).wf(),
        ensures
            final(self).wf(),
            final(self)@ == (BehaviourView {
                relay: RelayView {
                    reservations: released_peer(old(self)@.relay.reservations, peer@),
                    ..old(self)@.relay
                },
                liveness: LivenessView {
                    peers: disconnected(old(self)@.liveness.peers, peer@),
                    ..old(self)@.liveness
                },
            }),
    {
        self.liveness.disconnect(peer);
        self.relay.release_peer(peer);
    }

    /// Answers a reservation request of `requester` towards `target`, with
    /// the addresses that the node has observed.
    ///
    /// The target can be reached where it is connected or an address was
    /// observed for it; the requester is authorized where it is connected.
    /// The relay decides from that and from its capacity.
    pub fn handle_reservation_request(
        &mut self,
        requester: PeerId,
        target: PeerId,
        addresses: &ExternalAddressSet,
        now: u64,
    ) -> (decision: ReservationDecision)
        requires
            old(self).wf(),
        ensures
            final(self).wf(),
            decision == decide(
                old(self)@.relay.reservations,
                old(self)@.relay.config.max_reservations,
                is_authorized(old(self)@, requester@),
                is_reachable(old(self)@, addresses@, target@),
            ),
            final(self)@ == (BehaviourView {
                relay: RelayView {
                    reservations: after_request(
                        old(self)@.relay.reservations,
                        old(self)@.relay.config,
                        requester@,
                        target@,
                        is_authorized(old(self)@, requester@),
                        is_reachable(old(self)@, addresses@, target@),
                        now,
                    ),
                    ..old(self)@.relay
                },
                ..old(self)@
            }),
    {
        let authorized = self.liveness.is_connected(&requester);
        let reachable = self.liveness.is_connected(&target) || addresses.knows(&target);
        self.relay.handle_reservation_request(requester, target, authorized, reachable, now)
    }
}

} // verus!

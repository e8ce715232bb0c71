//! The event loop: what the node does with each event that the network or a
//! behaviour hands to it.
//!
//! The program around the library waits for the next event and calls
//! `EventLoop::dispatch` with it; one event is dispatched in full before the
//! next. Between two calls the loop is idle.

use crate::address::Address;
use crate::external::{addresses_of_peer, peer_known, ExternalAddressSet};
use crate::identify::{address_views, clone_addresses, IdentifyEvent};
use crate::identity::PeerId;
use crate::liveness::LivenessEvent;
use crate::relay::{RejectReason, ReservationDecision};
use vstd::prelude::*;

verus! {

/// What the relay behaviour reports.
#[derive(Debug)]
pub enum RelayEvent {
    /// A reservation request was granted.
    ReservationAccepted { requester: PeerId, target: PeerId },
    /// A reservation request was refused.
    ReservationRejected { requester: PeerId, target: PeerId, reason: RejectReason },
}

impl RelayEvent {
    /// The event that reports the answer to a reservation request.
    pub fn answered(requester: PeerId, target: PeerId, decision: ReservationDecision) -> (event:
        RelayEvent)
        ensures
            event == (match decision {
                ReservationDecision::Accepted => RelayEvent::ReservationAccepted {
                    requester,
                    target,
                },
                ReservationDecision::Rejected(reason) => RelayEvent::ReservationRejected {
                    requester,
                    target,
                    reason,
                },
            }),
    {
        match decision {
            ReservationDecision::Accepted => RelayEvent::ReservationAccepted { requester, target },
            ReservationDecision::Rejected(reason) => RelayEvent::ReservationRejected {
                requester,
                target,
                reason,
            },
        }
    }
}

/// An event of one of the three behaviours.
#[derive(Debug)]
pub enum BehaviourEvent {
    Relay(RelayEvent),
    Liveness { peer: PeerId, event: LivenessEvent },
    Identify(IdentifyEvent),
}

/// An event that the loop waits for.
#[derive(Debug)]
pub enum Event {
    /// A connection from a peer was accepted and upgraded.
    IncomingConnection { peer: PeerId },
    /// A behaviour reports something.
    Behaviour(BehaviourEvent),
    /// A listener started to listen on an address.
    NewListenAddr { address: Address },
    /// A listener stopped to listen on an address.
    ExpiredListenAddr { address: Address },
    /// A connection or a session on it failed.
    ConnectionError { peer: PeerId },
    /// The transport failed as a whole.
    TransportFailure,
    /// The process was told to shut down.
    Shutdown,
}

/// What the program around the loop does after an event was dispatched.
#[derive(Debug)]
pub enum Action {
    /// Hand the address to the transport as an external address of this
    /// node, and surface the event.
    AddExternalAddress(Address),
    /// Report that the node listens on the address.
    ReportListenAddress(Address),
    /// Surface the event; nothing else follows from it.
    Surface,
    /// Leave the loop.
    Stop,
}

/// An action, as plain values.
pub enum ActionView {
    AddExternalAddress(Seq<u8>),
    ReportListenAddress(Seq<u8>),
    Surface,
    Stop,
}

impl View for Action {
    type V = ActionView;

    open spec fn view(&self) -> ActionView {
        match self {
            Action::AddExternalAddress(address) => ActionView::AddExternalAddress(address@),
            Action::ReportListenAddress(address) => ActionView::ReportListenAddress(address@),
            Action::Surface => ActionView::Surface,
            Action::Stop => ActionView::Stop,
        }
    }
}

/// The state of the loop, as plain values.
pub struct LoopView {
    /// The identifier of this node.
    pub local_peer: Seq<u8>,
    /// The addresses at which peers were observed.
    pub external: Set<(Seq<u8>, Seq<u8>)>,
    /// The addresses that the node listens on, in the order they came up.
    pub listen: Seq<Seq<u8>>,
    /// Whether the loop has ended.
    pub stopped: bool,
}

/// The address at which a peer says it sees this node, where the event is a
/// received identification record.
pub open spec fn observed_address(event: Event) -> Option<Seq<u8>> {
    match event {
        Event::Behaviour(BehaviourEvent::Identify(IdentifyEvent::Received { info, .. })) => Some(
            info.observed_addr@,
        ),
        _ => None,
    }
}

/// Whether the event ends the loop: only a failure of the whole transport or
/// a shutdown does.
pub open spec fn is_fatal(event: Event) -> bool {
    event is TransportFailure || event is Shutdown
}

/// A list of addresses with one more at its end, unless it is in the list.
pub open spec fn with_address(list: Seq<Seq<u8>>, address: Seq<u8>) -> Seq<Seq<u8>> {
    if list.contains(address) {
        list
    } else {
        list.push(address)
    }
}

/// The state of the loop after an event. A received identification record
/// adds the observed address to the external addresses of this node; a new
/// listen address is recorded; a fatal event ends the loop; every other
/// event leaves the state as it is, and so does every event after the end.
pub open spec fn next(state: LoopView, event: Event) -> LoopView {
    if state.stopped {
        state
    } else if is_fatal(event) {
        LoopView { stopped: true, ..state }
    } else if let Some(observed) = observed_address(event) {
        LoopView { external: state.external.insert((state.local_peer, observed)), ..state }
    } else if let Event::NewListenAddr { address } = event {
        LoopView { listen: with_address(state.listen, address@), ..state }
    } else {
        state
    }
}

/// What follows from an event for the program around the loop.
pub open spec fn action_for(state: LoopView, event: Event) -> ActionView {
    if state.stopped || is_fatal(event) {
        ActionView::Stop
    } else if let Some(observed) = observed_address(event) {
        ActionView::AddExternalAddress(observed)
    } else if let Event::NewListenAddr { address } = event {
        ActionView::ReportListenAddress(address@)
    } else {
        ActionView::Surface
    }
}

/// No address occurs twice in the list.
pub open spec fn no_repeats(list: Seq<Seq<u8>>) -> bool {
    forall|i: int, j: int| 0 <= i < j < list.len() ==> list[i] != list[j]
}

/// The state that the event loop owns: who the node is, where it listens,
/// and where peers were observed.
pub struct EventLoop {
    local_peer: PeerId,
    external: ExternalAddressSet,
    listen: Vec<Address>,
    stopped: bool,
}

impl View for EventLoop {
    type V = LoopView;

    closed spec fn view(&self) -> LoopView {
        LoopView {
            local_peer: self.local_peer@,
            external: self.external@,
            listen: address_views(self.listen@),
            stopped: self.stopped,
        }
    }
}

impl EventLoop {
    /// The loop holds no observation and no listen address twice.
    pub closed spec fn wf(&self) -> bool {
        self.external.wf() && no_repeats(self@.listen)
    }

    /// The loop of a node before its first event.
    pub fn new(local_peer: PeerId) -> (event_loop: EventLoop)
        ensures
            event_loop.wf(),
            event_loop@ == (LoopView {
                local_peer: local_peer@,
                external: Set::empty(),
                listen: Seq::empty(),
                stopped: false,
            }),
    {
        let event_loop = EventLoop {
            local_peer,
            external: ExternalAddressSet::new(),
            listen: Vec::new(),
            stopped: false,
        };
        assert(event_loop@.listen =~= Seq::<Seq<u8>>::empty());
        event_loop
    }

    /// The identifier of this node.
    pub fn local_peer(&self) -> (peer: PeerId)
        ensures
            peer@ == self@.local_peer,
    {
        self.local_peer.clone()
    }

    /// Whether the loop has ended.
    pub fn is_stopped(&self) -> (stopped: bool)
        ensures
            stopped == self@.stopped,
    {
        self.stopped
    }

    /// The addresses that the node listens on.
    pub fn listen_addresses(&self) -> (addresses: Vec<Address>)
        ensures
            address_views(addresses@) == self@.listen,
    {
        clone_addresses(&self.listen)
    }

    /// Whether the address was observed for the peer.
    pub fn has_external_address(&self, peer: &PeerId, address: &Address) -> (found: bool)
        ensures
            found == self@.external.contains((peer@, address@)),
    {
        self.external.contains(peer, address)
    }

    /// Whether any address was observed for the peer.
    pub fn knows_peer(&self, peer: &PeerId) -> (known: bool)
        ensures
            known == peer_known(self@.external, peer@),
    {
        self.external.knows(peer)
    }

    /// The addresses that were observed for the peer, each once.
    pub fn external_addresses_of(&self, peer: &PeerId) -> (found: Vec<Address>)
        requires
            self.wf(),
        ensures
            forall|a: Seq<u8>|
                addresses_of_peer(self@.external, peer@).contains(a) <==> exists|k: int|
                    0 <= k < found@.len() && #[trigger] found@[k]@ == a,
            forall|i: int, j: int| 0 <= i < j < found@.len() ==> found@[i]@ != found@[j]@,
    {
        self.external.addresses_of(peer)
    }

    /// Records an address at which a peer is believed to be reachable.
    /// Recording it again changes nothing.
    pub fn add_external_address(&mut self, peer: PeerId, address: Address)
        requires
            old(self).wf(),
        ensures
            final(self).wf(),
            final(self)@ == (LoopView {
                external: old(self)@.external.insert((peer@, address@)),
                ..old(self)@
            }),
    {
        self.external.add(peer, address);
    }

    fn listens_on(&self, address: &Address) -> (found: bool)
        ensures
            found == self@.listen.contains(address@),
    {
        let mut i: usize = 0;
        while i < self.listen.len()
            invariant
                i <= self.listen@.len(),
                forall|k: int| 0 <= k < i ==> self@.listen[k] != address@,
            decreases self.listen@.len() - i,
        {
            if self.listen[i].same(address) {
                assert(self@.listen[i as int] == address@);
                return true;
            }
            i += 1;
        }
        false
    }

    /// Dispatches one event and says what follows from it.
    ///
    /// A received identification record has its observed address recorded as
    /// an external address of this node. A new listen address is recorded. A
    /// failure of the transport or a shutdown ends the loop. Every other
    /// event is surfaced and changes nothing: an error on one connection
    /// never ends the loop. After the end nothing changes any more.
    pub fn dispatch(&mut self, event: &Event) -> (action: Action)
        requires
            old(self).wf(),
        ensures
            final(self).wf(),
            final(self)@ == next(old(self)@, *event),
            action@ == action_for(old(self)@, *event),
            final(self)@.stopped == (old(self)@.stopped || is_fatal(*event)),
    {
        if self.stopped {
            return Action::Stop;
        }
        match event {
            Event::TransportFailure | Event::Shutdown => {
                self.stopped = true;
                Action::Stop
            },
            Event::Behaviour(BehaviourEvent::Identify(IdentifyEvent::Received { info, .. })) => {
                let observed = info.observed_addr.clone();
                self.external.add(self.local_peer.clone(), info.observed_addr.clone());
                Action::AddExternalAddress(observed)
            },
            Event::NewListenAddr { address } => {
                if !self.listens_on(address) {
                    let ghost before = self@.listen;
                    self.listen.push(address.clone());
                    assert(self@.listen =~= before.push(address@));
                }
                Action::ReportListenAddress(address.clone())
            },
            _ => Action::Surface,
        }
    }
}

/// After a received identification record with observed address `A` was
/// dispatched, the external addresses of this node include `A`; dispatching
/// the same event again changes nothing.
pub proof fn lemma_identify_records_observed_address(state: LoopView, event: Event)
    requires
        !state.stopped,
        observed_address(event) is Some,
    ensures
        addresses_of_peer(next(state, event).external, state.local_peer).contains(
            observed_address(event)->Some_0,
        ),
        next(next(state, event), event) == next(state, event),
{
    let once = next(state, event);
    let pair = (state.local_peer, observed_address(event)->Some_0);
    assert(once.external.insert(pair) =~= once.external);
}

/// No event takes an external address away.
pub proof fn lemma_external_addresses_only_grow(state: LoopView, event: Event)
    ensures
        state.external.subset_of(next(state, event).external),
{
}

/// Dispatching the same event twice leaves the state that dispatching it
/// once leaves.
pub proof fn lemma_dispatch_idempotent(state: LoopView, event: Event)
    ensures
        next(next(state, event), event) == next(state, event),
{
    let once = next(state, event);
    if !state.stopped && !is_fatal(event) {
        if let Some(observed) = observed_address(event) {
            assert(once.external.insert((state.local_peer, observed)) =~= once.external);
        } else if let Event::NewListenAddr { address } = event {
            assert(once.listen.contains(address@)) by {
                if !state.listen.contains(address@) {
                    assert(once.listen[state.listen.len() as int] == address@);
                }
            }
        }
    }
}

} // verus!

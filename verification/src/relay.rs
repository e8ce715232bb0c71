//! The relay behaviour: which reservation requests are granted, and how a
//! reservation passes from request to forwarding to its end.

use crate::identity::PeerId;
use crate::session::MuxError;
use vstd::prelude::*;

verus! {

/// Where a reservation stands in its life.
#[derive(Clone, Copy, Debug, PartialEq, Eq, Structural)]
pub enum ReservationState {
    /// Granted; the streams to both peers are not yet joined.
    Requested,
    /// Bytes are forwarded between the two peers.
    Active,
    /// The timer of the reservation ran out.
    Expired,
    /// A party tore the reservation down, or a connection was lost.
    Released,
}

/// Why a reservation request was turned down.
#[derive(Clone, Copy, Debug, PartialEq, Eq, Structural)]
pub enum RejectReason {
    CapacityExceeded,
    TargetUnreachable,
    NotAuthorized,
}

/// The answer to a reservation request.
#[derive(Clone, Copy, Debug, PartialEq, Eq, Structural)]
pub enum ReservationDecision {
    Accepted,
    Rejected(RejectReason),
}

/// The direction of forwarded bytes within a reservation.
#[derive(Clone, Copy, Debug, PartialEq, Eq, Structural)]
pub enum Direction {
    ToTarget,
    ToRequester,
}

/// Limits of the relay.
#[derive(Clone, Copy, Debug, PartialEq, Eq, Structural)]
pub struct RelayConfig {
    /// How many reservations may be requested or active at once.
    pub max_reservations: usize,
    /// How long a reservation lasts, in the unit of the clock handed in.
    pub reservation_duration: u64,
}

impl Default for RelayConfig {
    /// Room for 128 reservations of 3600 clock units each.
    fn default() -> (config: RelayConfig)
        ensures
            config == (RelayConfig { max_reservations: 128, reservation_duration: 3600 }),
    {
        RelayConfig { max_reservations: 128, reservation_duration: 3600 }
    }
}

/// A reservation, as plain values.
pub struct ReservationView {
    pub requester: Seq<u8>,
    pub target: Seq<u8>,
    pub expiry: u64,
    pub state: ReservationState,
}

/// The relay service granted to one peer towards another.
#[derive(Debug)]
pub struct RelayReservation {
    requester: PeerId,
    target: PeerId,
    expiry: u64,
    state: ReservationState,
}

impl View for RelayReservation {
    type V = ReservationView;

    closed spec fn view(&self) -> ReservationView {
        ReservationView {
            requester: self.requester@,
            target: self.target@,
            expiry: self.expiry,
            state: self.state,
        }
    }
}

impl Clone for RelayReservation {
    fn clone(&self) -> (copy: RelayReservation)
        ensures
            copy@ == self@,
    {
        RelayReservation {
            requester: self.requester.clone(),
            target: self.target.clone(),
            expiry: self.expiry,
            state: self.state,
        }
    }
}

impl RelayReservation {
    /// The peer that asked for the reservation.
    pub fn requester(&self) -> (peer: PeerId)
        ensures
            peer@ == self@.requester,
    {
        self.requester.clone()
    }

    /// The peer that the requester wants to reach.
    pub fn target(&self) -> (peer: PeerId)
        ensures
            peer@ == self@.target,
    {
        self.target.clone()
    }

    /// The time from which the reservation no longer holds.
    pub fn expiry(&self) -> (at: u64)
        ensures
            at == self@.expiry,
    {
        self.expiry
    }

    /// Where the reservation stands.
    pub fn state(&self) -> (state: ReservationState)
        ensures
            state == self@.state,
    {
        self.state
    }

    fn with_state(&self, state: ReservationState) -> (changed: RelayReservation)
        ensures
            changed@ == (ReservationView { state, ..self@ }),
    {
        RelayReservation {
            requester: self.requester.clone(),
            target: self.target.clone(),
            expiry: self.expiry,
            state,
        }
    }
}

/// Whether a reservation in this state counts against the capacity.
pub open spec fn is_live(state: ReservationState) -> bool {
    state is Requested || state is Active
}

/// Whether position `i` holds the reservation of `requester` towards `target`.
pub open spec fn holds(
    table: Seq<ReservationView>,
    i: int,
    requester: Seq<u8>,
    target: Seq<u8>,
) -> bool {
    0 <= i < table.len() && table[i].requester == requester && table[i].target == target
}

/// Whether the table holds a reservation of `requester` towards `target`.
pub open spec fn is_reserved(table: Seq<ReservationView>, requester: Seq<u8>, target: Seq<u8>) -> bool {
    exists|i: int| holds(table, i, requester, target)
}

/// The position of the reservation of `requester` towards `target`.
pub open spec fn slot(table: Seq<ReservationView>, requester: Seq<u8>, target: Seq<u8>) -> int {
    choose|i: int| holds(table, i, requester, target)
}

/// The state of the reservation of `requester` towards `target`, if there is
/// one.
pub open spec fn state_of(
    table: Seq<ReservationView>,
    requester: Seq<u8>,
    target: Seq<u8>,
) -> Option<ReservationState> {
    if is_reserved(table, requester, target) {
        Some(table[slot(table, requester, target)].state)
    } else {
        None
    }
}

/// No two reservations of the table are of the same requester towards the
/// same target.
pub open spec fn distinct(table: Seq<ReservationView>) -> bool {
    forall|i: int, j: int|
        #![trigger table[i], table[j]]
        0 <= i < j < table.len() ==> !(table[i].requester == table[j].requester && table[i].target
            == table[j].target)
}

/// The number of reservations that are requested or active.
pub open spec fn live_count(table: Seq<ReservationView>) -> nat
    decreases table.len(),
{
    if table.len() == 0 {
        0
    } else {
        live_count(table.drop_last()) + if is_live(table.last().state) {
            1nat
        } else {
            0nat
        }
    }
}

/// The answer to a request: an unreachable target is refused first, then a
/// requester that is not authorized, then a request that finds the relay
/// full.
pub open spec fn decide(
    table: Seq<ReservationView>,
    max_reservations: usize,
    authorized: bool,
    reachable: bool,
) -> ReservationDecision {
    if !reachable {
        ReservationDecision::Rejected(RejectReason::TargetUnreachable)
    } else if !authorized {
        ReservationDecision::Rejected(RejectReason::NotAuthorized)
    } else if live_count(table) >= max_reservations {
        ReservationDecision::Rejected(RejectReason::CapacityExceeded)
    } else {
        ReservationDecision::Accepted
    }
}

/// The time at which a reservation granted at `now` runs out: `duration`
/// later, or at the end of the clock where that is earlier.
pub open spec fn expiry_at(now: u64, duration: u64) -> u64 {
    if now + duration <= u64::MAX {
        (now + duration) as u64
    } else {
        u64::MAX
    }
}

/// The table with a reservation put in the place of the one with the same
/// requester and target, or at the end where there is none.
pub open spec fn put(table: Seq<ReservationView>, reservation: ReservationView) -> Seq<
    ReservationView,
> {
    if is_reserved(table, reservation.requester, reservation.target) {
        table.update(slot(table, reservation.requester, reservation.target), reservation)
    } else {
        table.push(reservation)
    }
}

/// The table after a request: a granted request leaves a reservation in
/// state `Requested`, a refused one leaves the table as it was.
pub open spec fn after_request(
    table: Seq<ReservationView>,
    config: RelayConfig,
    requester: Seq<u8>,
    target: Seq<u8>,
    authorized: bool,
    reachable: bool,
    now: u64,
) -> Seq<ReservationView> {
    if decide(table, config.max_reservations, authorized, reachable) is Accepted {
        put(
            table,
            ReservationView {
                requester,
                target,
                expiry: expiry_at(now, config.reservation_duration),
                state: ReservationState::Requested,
            },
        )
    } else {
        table
    }
}

/// Whether the reservation of `requester` towards `target` can start
/// forwarding at `now`: it is requested and has not run out.
pub open spec fn can_activate(
    table: Seq<ReservationView>,
    requester: Seq<u8>,
    target: Seq<u8>,
    now: u64,
) -> bool {
    is_reserved(table, requester, target) && table[slot(table, requester, target)].state is Requested && now
        < table[slot(table, requester, target)].expiry
}

/// The table after the streams of a reservation were joined.
pub open spec fn activated(
    table: Seq<ReservationView>,
    requester: Seq<u8>,
    target: Seq<u8>,
    now: u64,
) -> Seq<ReservationView> {
    if can_activate(table, requester, target, now) {
        let i = slot(table, requester, target);
        table.update(i, ReservationView { state: ReservationState::Active, ..table[i] })
    } else {
        table
    }
}

/// The table at `now`: every requested or active reservation whose time has
/// run out is expired.
pub open spec fn swept(table: Seq<ReservationView>, now: u64) -> Seq<ReservationView> {
    Seq::new(
        table.len(),
        |i: int|
            if is_live(table[i].state) && table[i].expiry <= now {
                ReservationView { state: ReservationState::Expired, ..table[i] }
            } else {
                table[i]
            },
    )
}

/// Whether there is a requested or active reservation of `requester` towards
/// `target`.
pub open spec fn can_release(
    table: Seq<ReservationView>,
    requester: Seq<u8>,
    target: Seq<u8>,
) -> bool {
    is_reserved(table, requester, target) && is_live(table[slot(table, requester, target)].state)
}

/// The table after one reservation was torn down.
pub open spec fn released(
    table: Seq<ReservationView>,
    requester: Seq<u8>,
    target: Seq<u8>,
) -> Seq<ReservationView> {
    if can_release(table, requester, target) {
        let i = slot(table, requester, target);
        table.update(i, ReservationView { state: ReservationState::Released, ..table[i] })
    } else {
        table
    }
}

/// The table after the connection to a peer was lost: every requested or
/// active reservation that the peer takes part in is released.
pub open spec fn released_peer(table: Seq<ReservationView>, peer: Seq<u8>) -> Seq<
    ReservationView,
> {
    Seq::new(
        table.len(),
        |i: int|
            if is_live(table[i].state) && (table[i].requester == peer || table[i].target == peer) {
                ReservationView { state: ReservationState::Released, ..table[i] }
            } else {
                table[i]
            },
    )
}

/// Whether bytes are forwarded at `now` within the reservation of `requester`
/// towards `target`: it is active and has not run out.
pub open spec fn can_forward(
    table: Seq<ReservationView>,
    requester: Seq<u8>,
    target: Seq<u8>,
    now: u64,
) -> bool {
    is_reserved(table, requester, target) && table[slot(table, requester, target)].state is Active && now
        < table[slot(table, requester, target)].expiry
}

/// The relay, as plain values.
pub struct RelayView {
    pub config: RelayConfig,
    pub reservations: Seq<ReservationView>,
}

/// The relay behaviour: its limits and its table of reservations.
#[derive(Debug)]
pub struct Relay {
    config: RelayConfig,
    reservations: Vec<RelayReservation>,
}

impl View for Relay {
    type V = RelayView;

    closed spec fn view(&self) -> RelayView {
        RelayView {
            config: self.config,
            reservations: Seq::new(self.reservations@.len(), |i: int| self.reservations@[i]@),
        }
    }
}

proof fn lemma_slot_unique(table: Seq<ReservationView>, i: int, requester: Seq<u8>, target: Seq<u8>)
    requires
        distinct(table),
        holds(table, i, requester, target),
    ensures
        is_reserved(table, requester, target),
        slot(table, requester, target) == i,
{
    let j = slot(table, requester, target);
    assert(holds(table, j, requester, target));
}

proof fn lemma_live_count_update(table: Seq<ReservationView>, i: int, reservation: ReservationView)
    requires
        0 <= i < table.len(),
    ensures
        live_count(table.update(i, reservation)) + (if is_live(table[i].state) {
            1nat
        } else {
            0nat
        }) == live_count(table) + (if is_live(reservation.state) {
            1nat
        } else {
            0nat
        }),
    decreases table.len(),
{
    let changed = table.update(i, reservation);
    if i == table.len() - 1 {
        assert(changed.drop_last() =~= table.drop_last());
    } else {
        assert(changed.drop_last() =~= table.drop_last().update(i, reservation));
        lemma_live_count_update(table.drop_last(), i, reservation);
    }
}

proof fn lemma_live_count_fades(before: Seq<ReservationView>, after: Seq<ReservationView>)
    requires
        before.len() == after.len(),
        forall|i: int|
            0 <= i < before.len() && is_live(#[trigger] after[i].state) ==> is_live(
                before[i].state,
            ),
    ensures
        live_count(after) <= live_count(before),
    decreases before.len(),
{
    if before.len() > 0 {
        lemma_live_count_fades(before.drop_last(), after.drop_last());
    }
}

impl Relay {
    /// No pair of peers has two reservations, and the reservations that are
    /// requested or active are within the capacity.
    pub open spec fn wf(&self) -> bool {
        &&& distinct(self@.reservations)
        &&& live_count(self@.reservations) <= self@.config.max_reservations
    }

    /// A relay with no reservations.
    pub fn new(config: RelayConfig) -> (relay: Relay)
        ensures
            relay.wf(),
            relay@ == (RelayView { config, reservations: Seq::empty() }),
    {
        let relay = Relay { config, reservations: Vec::new() };
        assert(relay@.reservations =~= Seq::<ReservationView>::empty());
        relay
    }

    /// The limits of the relay.
    pub fn config(&self) -> (config: RelayConfig)
        ensures
            config == self@.config,
    {
        self.config
    }

    /// The number of reservations that are requested or active.
    pub fn live_reservations(&self) -> (n: usize)
        ensures
            n == live_count(self@.reservations),
    {
        let mut n: usize = 0;
        let mut i: usize = 0;
        while i < self.reservations.len()
            invariant
                i <= self.reservations@.len(),
                n <= i,
                n == live_count(self@.reservations.take(i as int)),
            decreases self.reservations@.len() - i,
        {
            let ghost upto = self@.reservations.take(i + 1);
            assert(upto.drop_last() =~= self@.reservations.take(i as int));
            match self.reservations[i].state {
                ReservationState::Requested | ReservationState::Active => {
                    n += 1;
                },
                _ => {},
            }
            i += 1;
        }
        assert(self@.reservations.take(i as int) =~= self@.reservations);
        n
    }

    fn position(&self, requester: &PeerId, target: &PeerId) -> (at: Option<usize>)
        ensures
            match at {
                Some(i) => holds(self@.reservations, i as int, requester@, target@),
                None => !is_reserved(self@.reservations, requester@, target@),
            },
    {
        let mut i: usize = 0;
        while i < self.reservations.len()
            invariant
                i <= self.reservations@.len(),
                forall|k: int| 0 <= k < i ==> !holds(self@.reservations, k, requester@, target@),
            decreases self.reservations@.len() - i,
        {
            if self.reservations[i].requester.same(requester) && self.reservations[i].target.same(
                target,
            ) {
                return Some(i);
            }
            i += 1;
        }
        None
    }

    /// The reservation of `requester` towards `target`, if there is one.
    pub fn reservation(&self, requester: &PeerId, target: &PeerId) -> (found: Option<
        RelayReservation,
    >)
        requires
            self.wf(),
        ensures
            found is Some <==> is_reserved(self@.reservations, requester@, target@),
            found is Some ==> found->Some_0@ == self@.reservations[slot(
                self@.reservations,
                requester@,
                target@,
            )],
    {
        match self.position(requester, target) {
            Some(i) => {
                proof {
                    lemma_slot_unique(self@.reservations, i as int, requester@, target@);
                }
                Some(self.reservations[i].clone())
            },
            None => None,
        }
    }

    /// The state of the reservation of `requester` towards `target`, if there
    /// is one.
    pub fn state_of(&self, requester: &PeerId, target: &PeerId) -> (state: Option<
        ReservationState,
    >)
        requires
            self.wf(),
        ensures
            state == state_of(self@.reservations, requester@, target@),
    {
        match self.position(requester, target) {
            Some(i) => {
                proof {
                    lemma_slot_unique(self@.reservations, i as int, requester@, target@);
                }
                Some(self.reservations[i].state)
            },
            None => None,
        }
    }

    /// Answers a reservation request of `requester` towards `target`.
    ///
    /// A request for a target that cannot be reached is refused with
    /// `TargetUnreachable`; else one of a requester that is not authorized
    /// with `NotAuthorized`; else one that finds as many reservations
    /// requested or active as the relay has room for with `CapacityExceeded`.
    /// A refused request changes nothing. A granted request leaves a
    /// reservation in state `Requested` that runs out one reservation
    /// duration after `now`, in the place of an earlier reservation of the
    /// same two peers where there is one.
    pub fn handle_reservation_request(
        &mut self,
        requester: PeerId,
        target: PeerId,
        authorized: bool,
        reachable: bool,
        now: u64,
    ) -> (decision: ReservationDecision)
        requires
            old(self).wf(),
        ensures
            final(self).wf(),
            final(self)@.config == old(self)@.config,
            decision == decide(
                old(self)@.reservations,
                old(self)@.config.max_reservations,
                authorized,
                reachable,
            ),
            final(self)@.reservations == after_request(
                old(self)@.reservations,
                old(self)@.config,
                requester@,
                target@,
                authorized,
                reachable,
                now,
            ),
            !reachable ==> decision == ReservationDecision::Rejected(
                RejectReason::TargetUnreachable,
            ) && final(self)@ == old(self)@,
    {
        if !reachable {
            return ReservationDecision::Rejected(RejectReason::TargetUnreachable);
        }
        if !authorized {
            return ReservationDecision::Rejected(RejectReason::NotAuthorized);
        }
        if self.live_reservations() >= self.config.max_reservations {
            return ReservationDecision::Rejected(RejectReason::CapacityExceeded);
        }
        let duration = self.config.reservation_duration;
        let expiry = if duration <= u64::MAX - now {
            now + duration
        } else {
            u64::MAX
        };
        let ghost before = self@.reservations;
        let ghost fresh = ReservationView {
            requester: requester@,
            target: target@,
            expiry,
            state: ReservationState::Requested,
        };
        match self.position(&requester, &target) {
            Some(i) => {
                proof {
                    lemma_slot_unique(before, i as int, requester@, target@);
                    lemma_live_count_update(before, i as int, fresh);
                }
                self.reservations.set(
                    i,
                    RelayReservation { requester, target, expiry, state: ReservationState::Requested },
                );
                assert(self@.reservations =~= before.update(i as int, fresh));
            },
            None => {
                self.reservations.push(
                    RelayReservation { requester, target, expiry, state: ReservationState::Requested },
                );
                assert(self@.reservations =~= before.push(fresh));
                assert(before.push(fresh).drop_last() =~= before);
                assert(distinct(self@.reservations)) by {
                    let after = self@.reservations;
                    assert forall|a: int, b: int| 0 <= a < b < after.len() implies !(
                    #[trigger] after[a].requester == #[trigger] after[b].requester
                        && after[a].target == after[b].target) by {
                        if b == before.len() {
                            assert(!holds(before, a, requester@, target@));
                        }
                    }
                }
            },
        }
        ReservationDecision::Accepted
    }

    /// Starts forwarding within the reservation of `requester` towards
    /// `target`, once the streams to both peers are joined. Says whether the
    /// reservation became active: it does where it was requested and has not
    /// run out at `now`.
    pub fn activate(&mut self, requester: &PeerId, target: &PeerId, now: u64) -> (started: bool)
        requires
            old(self).wf(),
        ensures
            final(self).wf(),
            final(self)@.config == old(self)@.config,
            started == can_activate(old(self)@.reservations, requester@, target@, now),
            final(self)@.reservations == activated(
                old(self)@.reservations,
                requester@,
                target@,
                now,
            ),
    {
        let ghost before = self@.reservations;
        match self.position(requester, target) {
            Some(i) => {
                proof {
                    lemma_slot_unique(before, i as int, requester@, target@);
                }
                let found = &self.reservations[i];
                match found.state {
                    ReservationState::Requested => {
                        if now < found.expiry {
                            let changed = found.with_state(ReservationState::Active);
                            proof {
                                lemma_live_count_update(before, i as int, changed@);
                            }
                            self.reservations.set(i, changed);
                            assert(self@.reservations =~= before.update(i as int, changed@));
                            true
                        } else {
                            false
                        }
                    },
                    _ => false,
                }
            },
            None => false,
        }
    }

    /// Tears down the reservation of `requester` towards `target`. Says
    /// whether there was a requested or active one to release.
    pub fn release(&mut self, requester: &PeerId, target: &PeerId) -> (ended: bool)
        requires
            old(self).wf(),
        ensures
            final(self).wf(),
            final(self)@.config == old(self)@.config,
            ended == can_release(old(self)@.reservations, requester@, target@),
            final(self)@.reservations == released(old(self)@.reservations, requester@, target@),
    {
        let ghost before = self@.reservations;
        match self.position(requester, target) {
            Some(i) => {
                proof {
                    lemma_slot_unique(before, i as int, requester@, target@);
                }
                let found = &self.reservations[i];
                match found.state {
                    ReservationState::Requested | ReservationState::Active => {
                        let changed = found.with_state(ReservationState::Released);
                        proof {
                            lemma_live_count_update(before, i as int, changed@);
                        }
                        self.reservations.set(i, changed);
                        assert(self@.reservations =~= before.update(i as int, changed@));
                        true
                    },
                    _ => false,
                }
            },
            None => false,
        }
    }

    /// Expires every requested or active reservation whose time has run out
    /// at `now`.
    pub fn expire(&mut self, now: u64)
        requires
            old(self).wf(),
        ensures
            final(self).wf(),
            final(self)@.config == old(self)@.config,
            final(self)@.reservations == swept(old(self)@.reservations, now),
    {
        let ghost before = self@.reservations;
        let mut i: usize = 0;
        while i < self.reservations.len()
            invariant
                i <= self.reservations@.len(),
                self.config == old(self).config,
                self@.reservations.len() == before.len(),
                forall|k: int| 0 <= k < i ==> self@.reservations[k] == swept(before, now)[k],
                forall|k: int| i <= k < before.len() ==> self@.reservations[k] == before[k],
            decreases self.reservations@.len() - i,
        {
            let found = &self.reservations[i];
            let live = match found.state {
                ReservationState::Requested | ReservationState::Active => true,
                _ => false,
            };
            if live && found.expiry <= now {
                let changed = found.with_state(ReservationState::Expired);
                self.reservations.set(i, changed);
            }
            i += 1;
        }
        assert(self@.reservations =~= swept(before, now));
        proof {
            lemma_live_count_fades(before, swept(before, now));
        }
    }

    /// Releases every requested or active reservation that `peer` takes part
    /// in, as when the connection to it is lost.
    pub fn release_peer(&mut self, peer: &PeerId)
        requires
            old(self).wf(),
        ensures
            final(self).wf(),
            final(self)@.config == old(self)@.config,
            final(self)@.reservations == released_peer(old(self)@.reservations, peer@),
    {
        let ghost before = self@.reservations;
        let mut i: usize = 0;
        while i < self.reservations.len()
            invariant
                i <= self.reservations@.len(),
                self.config == old(self).config,
                self@.reservations.len() == before.len(),
                forall|k: int|
                    0 <= k < i ==> self@.reservations[k] == released_peer(before, peer@)[k],
                forall|k: int| i <= k < before.len() ==> self@.reservations[k] == before[k],
            decreases self.reservations@.len() - i,
        {
            let found = &self.reservations[i];
            let live = match found.state {
                ReservationState::Requested | ReservationState::Active => true,
                _ => false,
            };
            if live && (found.requester.same(peer) || found.target.same(peer)) {
                let changed = found.with_state(ReservationState::Released);
                self.reservations.set(i, changed);
            }
            i += 1;
        }
        assert(self@.reservations =~= released_peer(before, peer@));
        proof {
            lemma_live_count_fades(before, released_peer(before, peer@));
        }
    }

    /// Decides where bytes go that arrive at `now` within the reservation of
    /// `requester` towards `target`: to the peer at the other end.
    ///
    /// Fails with `SessionClosed` exactly when the reservation is not active
    /// or has run out.
    pub fn forward(
        &self,
        requester: &PeerId,
        target: &PeerId,
        direction: Direction,
        now: u64,
    ) -> (r: Result<PeerId, MuxError>)
        requires
            self.wf(),
        ensures
            match r {
                Ok(receiver) => can_forward(self@.reservations, requester@, target@, now)
                    && receiver@ == (match direction {
                    Direction::ToTarget => target@,
                    Direction::ToRequester => requester@,
                }),
                Err(e) => !can_forward(self@.reservations, requester@, target@, now) && e
                    == MuxError::SessionClosed,
            },
    {
        match self.position(requester, target) {
            Some(i) => {
                proof {
                    lemma_slot_unique(self@.reservations, i as int, requester@, target@);
                }
                let found = &self.reservations[i];
                match found.state {
                    ReservationState::Active => {
                        if now < found.expiry {
                            match direction {
                                Direction::ToTarget => Ok(target.clone()),
                                Direction::ToRequester => Ok(requester.clone()),
                            }
                        } else {
                            Err(MuxError::SessionClosed)
                        }
                    },
                    _ => Err(MuxError::SessionClosed),
                }
            },
            None => Err(MuxError::SessionClosed),
        }
    }
}

/// A request for a target that cannot be reached is refused with
/// `TargetUnreachable`, whatever else holds, and leaves the table as it was:
/// nothing is forwarded afterwards that was not forwarded before.
pub proof fn lemma_unreachable_target_is_refused(
    table: Seq<ReservationView>,
    config: RelayConfig,
    requester: Seq<u8>,
    target: Seq<u8>,
    authorized: bool,
    now: u64,
)
    ensures
        decide(table, config.max_reservations, authorized, false) == ReservationDecision::Rejected(
            RejectReason::TargetUnreachable,
        ),
        after_request(table, config, requester, target, authorized, false, now) == table,
{
}

/// An active reservation whose time has run out forwards nothing; once the
/// table is swept it is expired, and forwarding within it fails at every
/// later time, in both directions.
pub proof fn lemma_expired_reservation_stops_forwarding(
    table: Seq<ReservationView>,
    requester: Seq<u8>,
    target: Seq<u8>,
    now: u64,
)
    requires
        distinct(table),
        state_of(table, requester, target) == Some(ReservationState::Active),
        table[slot(table, requester, target)].expiry <= now,
    ensures
        !can_forward(table, requester, target, now),
        distinct(swept(table, now)),
        state_of(swept(table, now), requester, target) == Some(ReservationState::Expired),
        forall|later: u64| !can_forward(swept(table, now), requester, target, later),
{
    let i = slot(table, requester, target);
    let after = swept(table, now);
    lemma_slot_unique(after, i, requester, target);
}

/// Whatever is asked of a relay with room for `max` reservations, a granted
/// request adds at most one reservation that counts against the capacity,
/// and is granted only where there is room for it.
pub proof fn lemma_request_keeps_capacity(
    table: Seq<ReservationView>,
    config: RelayConfig,
    requester: Seq<u8>,
    target: Seq<u8>,
    authorized: bool,
    reachable: bool,
    now: u64,
)
    requires
        distinct(table),
        live_count(table) <= config.max_reservations,
    ensures
        live_count(after_request(table, config, requester, target, authorized, reachable, now))
            <= config.max_reservations,
{
    if decide(table, config.max_reservations, authorized, reachable) is Accepted {
        let fresh = ReservationView {
            requester,
            target,
            expiry: expiry_at(now, config.reservation_duration),
            state: ReservationState::Requested,
        };
        if is_reserved(table, requester, target) {
            lemma_live_count_update(table, slot(table, requester, target), fresh);
        } else {
            assert(table.push(fresh).drop_last() =~= table);
        }
    }
}

} // verus!

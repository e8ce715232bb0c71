//! The liveness behaviour: counting the probes that a peer failed to echo,
//! and saying once when it has become unresponsive.

use crate::identity::PeerId;
use vstd::prelude::*;

verus! {

/// How one probe ended.
#[derive(Clone, Copy, Debug, PartialEq, Eq, Structural)]
pub enum ProbeOutcome {
    /// The echo arrived in time, after the given round-trip time.
    Echo { rtt_millis: u64 },
    /// No echo arrived within the round-trip timeout.
    Missed,
}

/// What the liveness behaviour reports about a connection.
#[derive(Clone, Copy, Debug, PartialEq, Eq, Structural)]
pub enum LivenessEvent {
    /// A round trip succeeded and took this long.
    Latency { rtt_millis: u64 },
    /// The number of consecutive missed echoes has reached the threshold.
    PeerUnresponsive,
}

/// When probes are sent on a connection and how long an echo may take.
#[derive(Clone, Copy, Debug, PartialEq, Eq, Structural)]
pub struct ProbeTiming {
    /// The time between two probes, in milliseconds.
    pub interval_millis: u64,
    /// The longest round trip that counts as an echo, in milliseconds.
    pub timeout_millis: u64,
}

/// Whether a probe is due at `now`: none was sent yet, or the last one was
/// sent at least one interval ago.
pub open spec fn is_probe_due(timing: ProbeTiming, last_sent: Option<u64>, now: u64) -> bool {
    match last_sent {
        None => true,
        Some(sent) => now - sent >= timing.interval_millis,
    }
}

/// How a probe sent at `sent_at` ended: with an echo where one arrived no
/// earlier than the probe left and within the timeout, missed otherwise.
pub open spec fn outcome_of(timing: ProbeTiming, sent_at: u64, echoed_at: Option<u64>)
    -> ProbeOutcome {
    match echoed_at {
        Some(echoed) if sent_at <= echoed && echoed - sent_at <= timing.timeout_millis =>
            ProbeOutcome::Echo { rtt_millis: (echoed - sent_at) as u64 },
        _ => ProbeOutcome::Missed,
    }
}

impl ProbeTiming {
    /// Whether the next probe is to be sent at `now`.
    pub fn probe_due(&self, last_sent: Option<u64>, now: u64) -> (due: bool)
        ensures
            due == is_probe_due(*self, last_sent, now),
    {
        match last_sent {
            None => true,
            Some(sent) => now >= sent && now - sent >= self.interval_millis,
        }
    }

    /// Judges a probe that was sent at `sent_at` and echoed at `echoed_at`,
    /// or not at all.
    pub fn outcome(&self, sent_at: u64, echoed_at: Option<u64>) -> (outcome: ProbeOutcome)
        ensures
            outcome == outcome_of(*self, sent_at, echoed_at),
    {
        match echoed_at {
            Some(echoed) => {
                if sent_at <= echoed && echoed - sent_at <= self.timeout_millis {
                    ProbeOutcome::Echo { rtt_millis: echoed - sent_at }
                } else {
                    ProbeOutcome::Missed
                }
            },
            None => ProbeOutcome::Missed,
        }
    }
}

/// The count of consecutive failures after one more probe. It stops counting
/// at the largest value it can hold.
pub open spec fn failures_after(failures: u64, outcome: ProbeOutcome) -> u64 {
    match outcome {
        ProbeOutcome::Echo { .. } => 0,
        ProbeOutcome::Missed => if failures < u64::MAX {
            (failures + 1) as u64
        } else {
            failures
        },
    }
}

/// What is reported for a probe, given the count of consecutive failures
/// before it: the latency of an echo, and unresponsiveness for the missed
/// probe that brings the count to the threshold.
pub open spec fn event_for(threshold: u64, failures: u64, outcome: ProbeOutcome) -> Option<
    LivenessEvent,
> {
    match outcome {
        ProbeOutcome::Echo { rtt_millis } => Some(LivenessEvent::Latency { rtt_millis }),
        ProbeOutcome::Missed => if failures + 1 == threshold {
            Some(LivenessEvent::PeerUnresponsive)
        } else {
            None
        },
    }
}

/// The state of a monitor, as plain values.
pub struct MonitorView {
    pub threshold: u64,
    pub failures: u64,
}

/// Liveness of one connection: the configured threshold and the number of
/// consecutive probes that went unanswered.
#[derive(Clone, Copy, Debug)]
pub struct LivenessMonitor {
    threshold: u64,
    failures: u64,
}

impl View for LivenessMonitor {
    type V = MonitorView;

    closed spec fn view(&self) -> MonitorView {
        MonitorView { threshold: self.threshold, failures: self.failures }
    }
}

impl LivenessMonitor {
    /// A monitor that reports a peer as unresponsive after `threshold`
    /// consecutive missed echoes. There is none for a threshold of zero.
    pub fn new(threshold: u64) -> (monitor: Option<LivenessMonitor>)
        ensures
            monitor is Some <==> threshold > 0,
            monitor is Some ==> monitor->Some_0@ == (MonitorView { threshold, failures: 0 }),
    {
        if threshold == 0 {
            None
        } else {
            Some(LivenessMonitor { threshold, failures: 0 })
        }
    }

    /// The configured threshold.
    pub fn threshold(&self) -> (n: u64)
        ensures
            n == self@.threshold,
    {
        self.threshold
    }

    /// The number of consecutive missed echoes.
    pub fn failures(&self) -> (n: u64)
        ensures
            n == self@.failures,
    {
        self.failures
    }

    /// Whether the peer has missed at least the threshold of echoes in a row.
    pub fn is_unresponsive(&self) -> (b: bool)
        ensures
            b == (self@.failures >= self@.threshold),
    {
        self.failures >= self.threshold
    }

    /// Takes in the outcome of one probe. An echo resets the count and is
    /// reported with its latency; a missed echo raises the count and is
    /// reported only when the count reaches the threshold.
    pub fn record(&mut self, outcome: ProbeOutcome) -> (event: Option<LivenessEvent>)
        ensures
            final(self)@.threshold == old(self)@.threshold,
            final(self)@.failures == failures_after(old(self)@.failures, outcome),
            event == event_for(old(self)@.threshold, old(self)@.failures, outcome),
    {
        match outcome {
            ProbeOutcome::Echo { rtt_millis } => {
                self.failures = 0;
                Some(LivenessEvent::Latency { rtt_millis })
            },
            ProbeOutcome::Missed => {
                if self.failures < u64::MAX {
                    self.failures = self.failures + 1;
                    if self.failures == self.threshold {
                        Some(LivenessEvent::PeerUnresponsive)
                    } else {
                        None
                    }
                } else {
                    None
                }
            },
        }
    }
}

/// The number of missed echoes at the end of a history of probes, since the
/// last echo.
pub open spec fn trailing_misses(history: Seq<ProbeOutcome>) -> nat
    decreases history.len(),
{
    if history.len() == 0 {
        0
    } else {
        match history.last() {
            ProbeOutcome::Echo { .. } => 0,
            ProbeOutcome::Missed => trailing_misses(history.drop_last()) + 1,
        }
    }
}

/// The count that a fresh monitor holds after a history of probes.
pub open spec fn failures_over(history: Seq<ProbeOutcome>) -> u64
    decreases history.len(),
{
    if history.len() == 0 {
        0
    } else {
        failures_after(failures_over(history.drop_last()), history.last())
    }
}

/// What a fresh monitor reports for the probe at position `at` of a history.
pub open spec fn event_at(threshold: u64, history: Seq<ProbeOutcome>, at: int) -> Option<
    LivenessEvent,
> {
    event_for(threshold, failures_over(history.take(at)), history[at])
}

/// The count of a monitor is the number of trailing misses, as far as it can
/// count.
pub proof fn lemma_failures_count_trailing_misses(history: Seq<ProbeOutcome>)
    ensures
        failures_over(history) == if trailing_misses(history) <= u64::MAX {
            trailing_misses(history)
        } else {
            u64::MAX as nat
        },
    decreases history.len(),
{
    if history.len() > 0 {
        lemma_failures_count_trailing_misses(history.drop_last());
    }
}

/// A peer is reported as unresponsive at exactly those probes that bring the
/// number of consecutive missed echoes to the threshold.
pub proof fn lemma_unresponsive_at_threshold_crossing(
    threshold: u64,
    history: Seq<ProbeOutcome>,
    at: int,
)
    requires
        threshold > 0,
        0 <= at < history.len(),
    ensures
        event_at(threshold, history, at) == Some(LivenessEvent::PeerUnresponsive)
            <==> trailing_misses(history.take(at + 1)) == threshold,
{
    let before = history.take(at);
    let upto = history.take(at + 1);
    lemma_failures_count_trailing_misses(before);
    assert(upto.drop_last() =~= before);
}

/// Missed echoes with no echo among them extend the run of misses.
pub proof fn lemma_misses_extend_run(history: Seq<ProbeOutcome>, from: int, to: int)
    requires
        0 <= from <= to <= history.len(),
        forall|k: int| from <= k < to ==> history[k] == ProbeOutcome::Missed,
    ensures
        trailing_misses(history.take(to)) == trailing_misses(history.take(from)) + (to - from),
    decreases to - from,
{
    if from < to {
        lemma_misses_extend_run(history, from, to - 1);
        assert(history.take(to).drop_last() =~= history.take(to - 1));
    }
}

/// Between two reports of unresponsiveness on one connection lies an echo:
/// a run of missed echoes is reported once, however long it grows.
pub proof fn lemma_unresponsive_once_per_run(
    threshold: u64,
    history: Seq<ProbeOutcome>,
    first: int,
    second: int,
)
    requires
        threshold > 0,
        0 <= first < second < history.len(),
        event_at(threshold, history, first) == Some(LivenessEvent::PeerUnresponsive),
        event_at(threshold, history, second) == Some(LivenessEvent::PeerUnresponsive),
    ensures
        exists|k: int| first < k < second && history[k] is Echo,
{
    lemma_unresponsive_at_threshold_crossing(threshold, history, first);
    lemma_unresponsive_at_threshold_crossing(threshold, history, second);
    if forall|k: int| first < k < second ==> !(history[k] is Echo) {
        lemma_misses_extend_run(history, first + 1, second + 1);
        assert(false);
    }
}

/// The monitor of one peer, as plain values.
pub struct PeerMonitorView {
    pub peer: Seq<u8>,
    pub monitor: MonitorView,
}

/// The monitor of the connection to one peer.
#[derive(Debug)]
pub struct PeerMonitor {
    peer: PeerId,
    monitor: LivenessMonitor,
}

impl View for PeerMonitor {
    type V = PeerMonitorView;

    closed spec fn view(&self) -> PeerMonitorView {
        PeerMonitorView { peer: self.peer@, monitor: self.monitor@ }
    }
}

/// Whether position `i` holds the monitor of `peer`.
pub open spec fn tracks(peers: Seq<PeerMonitorView>, i: int, peer: Seq<u8>) -> bool {
    0 <= i < peers.len() && peers[i].peer == peer
}

/// Whether the peer is monitored, which it is while it is connected.
pub open spec fn is_connected(peers: Seq<PeerMonitorView>, peer: Seq<u8>) -> bool {
    exists|i: int| tracks(peers, i, peer)
}

/// The position of the monitor of `peer`.
pub open spec fn place_of(peers: Seq<PeerMonitorView>, peer: Seq<u8>) -> int {
    choose|i: int| tracks(peers, i, peer)
}

/// No peer has two monitors.
pub open spec fn distinct_peers(peers: Seq<PeerMonitorView>) -> bool {
    forall|i: int, j: int|
        #![trigger peers[i], peers[j]]
        0 <= i < j < peers.len() ==> peers[i].peer != peers[j].peer
}

/// The monitors after a connection to `peer` was established: a peer that
/// was not connected gets a monitor with no failures.
pub open spec fn connected(peers: Seq<PeerMonitorView>, peer: Seq<u8>, threshold: u64) -> Seq<
    PeerMonitorView,
> {
    if is_connected(peers, peer) {
        peers
    } else {
        peers.push(PeerMonitorView { peer, monitor: MonitorView { threshold, failures: 0 } })
    }
}

/// The monitors after the connection to `peer` was closed.
pub open spec fn disconnected(peers: Seq<PeerMonitorView>, peer: Seq<u8>) -> Seq<PeerMonitorView> {
    if is_connected(peers, peer) {
        peers.remove(place_of(peers, peer))
    } else {
        peers
    }
}

/// The monitors after a probe of `peer` ended with `outcome`.
pub open spec fn probed(peers: Seq<PeerMonitorView>, peer: Seq<u8>, outcome: ProbeOutcome) -> Seq<
    PeerMonitorView,
> {
    if is_connected(peers, peer) {
        let i = place_of(peers, peer);
        peers.update(
            i,
            PeerMonitorView {
                peer,
                monitor: MonitorView {
                    threshold: peers[i].monitor.threshold,
                    failures: failures_after(peers[i].monitor.failures, outcome),
                },
            },
        )
    } else {
        peers
    }
}

/// What is reported for a probe of `peer`: nothing for a peer that is not
/// connected, else what its monitor reports.
pub open spec fn probe_event(
    peers: Seq<PeerMonitorView>,
    peer: Seq<u8>,
    outcome: ProbeOutcome,
) -> Option<LivenessEvent> {
    if is_connected(peers, peer) {
        let i = place_of(peers, peer);
        event_for(peers[i].monitor.threshold, peers[i].monitor.failures, outcome)
    } else {
        None
    }
}

/// The liveness behaviour, as plain values.
pub struct LivenessView {
    pub threshold: u64,
    pub peers: Seq<PeerMonitorView>,
}

/// The liveness behaviour: one monitor for each connected peer.
#[derive(Debug)]
pub struct Liveness {
    threshold: u64,
    peers: Vec<PeerMonitor>,
}

impl View for Liveness {
    type V = LivenessView;

    closed spec fn view(&self) -> LivenessView {
        LivenessView {
            threshold: self.threshold,
            peers: Seq::new(self.peers@.len(), |i: int| self.peers@[i]@),
        }
    }
}

proof fn lemma_place_unique(peers: Seq<PeerMonitorView>, i: int, peer: Seq<u8>)
    requires
        distinct_peers(peers),
        tracks(peers, i, peer),
    ensures
        is_connected(peers, peer),
        place_of(peers, peer) == i,
{
    let j = place_of(peers, peer);
    assert(tracks(peers, j, peer));
}

impl Liveness {
    /// The threshold is positive and every monitor has it; no peer has two
    /// monitors.
    pub open spec fn wf(&self) -> bool {
        &&& self@.threshold > 0
        &&& distinct_peers(self@.peers)
        &&& forall|i: int|
            0 <= i < self@.peers.len() ==> (#[trigger] self@.peers[i]).monitor.threshold
                == self@.threshold
    }

    /// The behaviour with no peer connected. There is none for a threshold
    /// of zero.
    pub fn new(threshold: u64) -> (liveness: Option<Liveness>)
        ensures
            liveness is Some <==> threshold > 0,
            liveness is Some ==> liveness->Some_0.wf() && liveness->Some_0@ == (LivenessView {
                threshold,
                peers: Seq::empty(),
            }),
    {
        if threshold == 0 {
            None
        } else {
            let liveness = Liveness { threshold, peers: Vec::new() };
            assert(liveness@.peers =~= Seq::<PeerMonitorView>::empty());
            Some(liveness)
        }
    }

    /// The configured threshold.
    pub fn threshold(&self) -> (n: u64)
        ensures
            n == self@.threshold,
    {
        self.threshold
    }

    fn position(&self, peer: &PeerId) -> (at: Option<usize>)
        ensures
            match at {
                Some(i) => tracks(self@.peers, i as int, peer@),
                None => !is_connected(self@.peers, peer@),
            },
    {
        let mut i: usize = 0;
        while i < self.peers.len()
            invariant
                i <= self.peers@.len(),
                forall|k: int| 0 <= k < i ==> !tracks(self@.peers, k, peer@),
            decreases self.peers@.len() - i,
        {
            if self.peers[i].peer.same(peer) {
                return Some(i);
            }
            i += 1;
        }
        None
    }

    /// Whether the peer is connected.
    pub fn is_connected(&self, peer: &PeerId) -> (found: bool)
        ensures
            found == is_connected(self@.peers, peer@),
    {
        self.position(peer).is_some()
    }

    /// The number of consecutive missed echoes of a connected peer.
    pub fn failures_of(&self, peer: &PeerId) -> (failures: Option<u64>)
        requires
            self.wf(),
        ensures
            failures is Some <==> is_connected(self@.peers, peer@),
            failures is Some ==> failures->Some_0 == self@.peers[place_of(
                self@.peers,
                peer@,
            )].monitor.failures,
    {
        match self.position(peer) {
            Some(i) => {
                proof {
                    lemma_place_unique(self@.peers, i as int, peer@);
                }
                Some(self.peers[i].monitor.failures())
            },
            None => None,
        }
    }

    /// Starts to monitor a peer whose connection was established. A peer
    /// that is monitored already keeps its monitor.
    pub fn connect(&mut self, peer: PeerId)
        requires
            old(self).wf(),
        ensures
            final(self).wf(),
            final(self)@ == (LivenessView {
                peers: connected(old(self)@.peers, peer@, old(self)@.threshold),
                ..old(self)@
            }),
    {
        if self.position(&peer).is_none() {
            let ghost before = self@.peers;
            let monitor = LivenessMonitor { threshold: self.threshold, failures: 0 };
            self.peers.push(PeerMonitor { peer, monitor });
            assert(self@.peers =~= connected(before, peer@, self.threshold));
            assert(distinct_peers(self@.peers)) by {
                let after = self@.peers;
                assert forall|a: int, b: int| 0 <= a < b < after.len() implies (
                #[trigger] after[a]).peer != (#[trigger] after[b]).peer by {
                    if b == before.len() {
                        assert(!tracks(before, a, peer@));
                    }
                }
            }
        }
    }

    /// Stops to monitor a peer whose connection was closed.
    pub fn disconnect(&mut self, peer: &PeerId)
        requires
            old(self).wf(),
        ensures
            final(self).wf(),
            final(self)@ == (LivenessView {
                peers: disconnected(old(self)@.peers, peer@),
                ..old(self)@
            }),
    {
        match self.position(peer) {
            Some(i) => {
                let ghost before = self@.peers;
                proof {
                    lemma_place_unique(before, i as int, peer@);
                }
                self.peers.remove(i);
                assert(self@.peers =~= before.remove(i as int));
            },
            None => {},
        }
    }

    /// Takes in the outcome of a probe of `peer`. For a connected peer its
    /// monitor counts the outcome and says what to report; for any other
    /// peer nothing changes and nothing is reported.
    pub fn record(&mut self, peer: &PeerId, outcome: ProbeOutcome) -> (event: Option<
        LivenessEvent,
    >)
        requires
            old(self).wf(),
        ensures
            final(self).wf(),
            final(self)@ == (LivenessView {
                peers: probed(old(self)@.peers, peer@, outcome),
                ..old(self)@
            }),
            event == probe_event(old(self)@.peers, peer@, outcome),
    {
        match self.position(peer) {
            Some(i) => {
                let ghost before = self@.peers;
                proof {
                    lemma_place_unique(before, i as int, peer@);
                }
                let mut monitor = self.peers[i].monitor;
                let event = monitor.record(outcome);
                self.peers.set(i, PeerMonitor { peer: peer.clone(), monitor });
                assert(self@.peers =~= probed(before, peer@, outcome));
                event
            },
            None => None,
        }
    }
}

} // verus!

//! The external address set: for each peer, the addresses at which it was
//! observed to be reachable.

use crate::address::Address;
use crate::identity::PeerId;
use vstd::prelude::*;

verus! {

/// One observation: a peer and an address at which it was seen.
pub struct Observation {
    peer: PeerId,
    address: Address,
}

impl Observation {
    /// The observation as a pair of byte strings.
    pub closed spec fn pair(self) -> (Seq<u8>, Seq<u8>) {
        (self.peer@, self.address@)
    }
}

/// The addresses at which peers were observed. It only grows.
pub struct ExternalAddressSet {
    entries: Vec<Observation>,
}

impl View for ExternalAddressSet {
    type V = Set<(Seq<u8>, Seq<u8>)>;

    closed spec fn view(&self) -> Set<(Seq<u8>, Seq<u8>)> {
        Set::new(
            |p: (Seq<u8>, Seq<u8>)|
                exists|i: int| 0 <= i < self.entries@.len() && #[trigger] self.entries@[i].pair() == p,
        )
    }
}

/// The addresses that a set of observations holds for one peer.
pub open spec fn addresses_of_peer(set: Set<(Seq<u8>, Seq<u8>)>, peer: Seq<u8>) -> Set<Seq<u8>> {
    Set::new(|a: Seq<u8>| set.contains((peer, a)))
}

/// Whether a set of observations holds any address for a peer.
pub open spec fn peer_known(set: Set<(Seq<u8>, Seq<u8>)>, peer: Seq<u8>) -> bool {
    exists|a: Seq<u8>| set.contains((peer, a))
}

impl ExternalAddressSet {
    /// No observation is held twice.
    pub closed spec fn wf(&self) -> bool {
        forall|i: int, j: int|
            0 <= i < j < self.entries@.len() ==> #[trigger] self.entries@[i].pair()
                != #[trigger] self.entries@[j].pair()
    }

    /// The empty set.
    pub fn new() -> (set: ExternalAddressSet)
        ensures
            set.wf(),
            set@ == Set::<(Seq<u8>, Seq<u8>)>::empty(),
    {
        let set = ExternalAddressSet { entries: Vec::new() };
        set
    }

    fn position(&self, peer: &PeerId, address: &Address) -> (at: Option<usize>)
        ensures
            match at {
                Some(i) => i < self.entries@.len() && self.entries@[i as int].pair() == (
                    peer@,
                    address@,
                ),
                None => !self@.contains((peer@, address@)),
            },
    {
        let mut i: usize = 0;
        while i < self.entries.len()
            invariant
                i <= self.entries@.len(),
                forall|k: int| 0 <= k < i ==> #[trigger] self.entries@[k].pair() != (peer@, address@),
            decreases self.entries@.len() - i,
        {
            if self.entries[i].peer.same(peer) && self.entries[i].address.same(address) {
                return Some(i);
            }
            i += 1;
        }
        None
    }

    /// Whether the address is recorded for the peer.
    pub fn contains(&self, peer: &PeerId, address: &Address) -> (found: bool)
        ensures
            found == self@.contains((peer@, address@)),
    {
        self.position(peer, address).is_some()
    }

    /// Whether any address is recorded for the peer.
    pub fn knows(&self, peer: &PeerId) -> (known: bool)
        ensures
            known == peer_known(self@, peer@),
    {
        let mut i: usize = 0;
        while i < self.entries.len()
            invariant
                i <= self.entries@.len(),
                forall|k: int| 0 <= k < i ==> (#[trigger] self.entries@[k].pair()).0 != peer@,
            decreases self.entries@.len() - i,
        {
            if self.entries[i].peer.same(peer) {
                assert(self@.contains(self.entries@[i as int].pair()));
                return true;
            }
            i += 1;
        }
        false
    }

    /// Records an address for a peer. Recording what is there already changes
    /// nothing; nothing is ever removed.
    pub fn add(&mut self, peer: PeerId, address: Address) -> (added: bool)
        requires
            old(self).wf(),
        ensures
            final(self).wf(),
            final(self)@ == old(self)@.insert((peer@, address@)),
            added == !old(self)@.contains((peer@, address@)),
    {
        match self.position(&peer, &address) {
            Some(_) => false,
            None => {
                let ghost before = self.entries@;
                let entry = Observation { peer, address };
                self.entries.push(entry);
                assert(self@ =~= old(self)@.insert((peer@, address@))) by {
                    assert forall|p: (Seq<u8>, Seq<u8>)| old(self)@.insert(
                        (peer@, address@),
                    ).contains(p) implies self@.contains(p) by {
                        if p == (peer@, address@) {
                            assert(self.entries@[before.len() as int].pair() == p);
                        } else {
                            let i = choose|i: int|
                                0 <= i < before.len() && #[trigger] before[i].pair() == p;
                            assert(self.entries@[i].pair() == p);
                        }
                    }
                }
                true
            },
        }
    }

    /// The addresses recorded for a peer, each once.
    pub fn addresses_of(&self, peer: &PeerId) -> (found: Vec<Address>)
        requires
            self.wf(),
        ensures
            forall|a: Seq<u8>|
                addresses_of_peer(self@, peer@).contains(a) <==> exists|k: int|
                    0 <= k < found@.len() && #[trigger] found@[k]@ == a,
            forall|i: int, j: int| 0 <= i < j < found@.len() ==> found@[i]@ != found@[j]@,
    {
        let mut found: Vec<Address> = Vec::new();
        let ghost mut origin: Seq<int> = Seq::empty();
        let mut i: usize = 0;
        while i < self.entries.len()
            invariant
                i <= self.entries@.len(),
                origin.len() == found@.len(),
                forall|k: int|
                    0 <= k < found@.len() ==> 0 <= #[trigger] origin[k] < i
                        && self.entries@[origin[k]].pair() == (peer@, found@[k]@),
                forall|k: int, l: int| 0 <= k < l < found@.len() ==> origin[k] < origin[l],
                forall|m: int|
                    0 <= m < i && (#[trigger] self.entries@[m].pair()).0 == peer@ ==> exists|k: int|
                        0 <= k < found@.len() && #[trigger] found@[k]@ == self.entries@[m].pair().1,
            decreases self.entries@.len() - i,
        {
            if self.entries[i].peer.same(peer) {
                let ghost before = found@;
                found.push(self.entries[i].address.clone());
                proof {
                    origin = origin.push(i as int);
                    assert forall|m: int|
                        0 <= m < i + 1 && (#[trigger] self.entries@[m].pair()).0
                            == peer@ implies exists|k: int|
                        0 <= k < found@.len() && #[trigger] found@[k]@
                            == self.entries@[m].pair().1 by {
                        if m < i {
                            let k = choose|k: int|
                                0 <= k < before.len() && #[trigger] before[k]@
                                    == self.entries@[m].pair().1;
                            assert(found@[k]@ == self.entries@[m].pair().1);
                        } else {
                            assert(found@[before.len() as int]@ == self.entries@[m].pair().1);
                        }
                    }
                }
            }
            i += 1;
        }
        proof {
            assert forall|a: Seq<u8>|
                (exists|k: int| 0 <= k < found@.len() && #[trigger] found@[k]@ == a)
                    implies addresses_of_peer(self@, peer@).contains(a) by {
                let k = choose|k: int| 0 <= k < found@.len() && #[trigger] found@[k]@ == a;
                assert(self.entries@[origin[k]].pair() == (peer@, a));
            }
            assert forall|k: int, l: int| 0 <= k < l < found@.len() implies found@[k]@
                != found@[l]@ by {
                assert(self.entries@[origin[k]].pair() != self.entries@[origin[l]].pair());
            }
        }
        found
    }
}

/// Recording the same address twice gives what recording it once gives.
pub proof fn lemma_add_idempotent(set: Set<(Seq<u8>, Seq<u8>)>, peer: Seq<u8>, address: Seq<u8>)
    ensures
        set.insert((peer, address)).insert((peer, address)) == set.insert((peer, address)),
        addresses_of_peer(set.insert((peer, address)), peer).contains(address),
{
}

/// Recording an address loses none that was recorded before.
pub proof fn lemma_add_monotone(set: Set<(Seq<u8>, Seq<u8>)>, peer: Seq<u8>, address: Seq<u8>)
    ensures
        set.subset_of(set.insert((peer, address))),
        forall|p: Seq<u8>|
            addresses_of_peer(set, p).subset_of(
                #[trigger] addresses_of_peer(set.insert((peer, address)), p),
            ),
{
}

} // verus!

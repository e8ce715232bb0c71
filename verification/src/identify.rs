//! The identification behaviour: the record that two peers exchange when a
//! connection is established.

use crate::address::Address;
use crate::bytes::slice_to_vec;
use crate::identity::{NodeIdentity, PeerId};
use vstd::prelude::*;

verus! {

/// An identification record, as plain values.
pub struct InfoView {
    pub protocol_version: Seq<char>,
    pub public_key: Seq<u8>,
    pub observed_addr: Seq<u8>,
    pub listen_addrs: Seq<Seq<u8>>,
}

/// Addresses as byte strings.
pub open spec fn address_views(addresses: Seq<Address>) -> Seq<Seq<u8>> {
    Seq::new(addresses.len(), |i: int| addresses[i]@)
}

/// What a peer says of itself and of the peer it speaks to.
#[derive(Debug)]
pub struct IdentifyInfo {
    /// The version of the protocol that the sender speaks.
    pub protocol_version: String,
    /// The protobuf-encoded public key of the sender.
    pub public_key: Vec<u8>,
    /// The address at which the sender sees the receiver.
    pub observed_addr: Address,
    /// The addresses that the sender listens on.
    pub listen_addrs: Vec<Address>,
}

impl View for IdentifyInfo {
    type V = InfoView;

    open spec fn view(&self) -> InfoView {
        InfoView {
            protocol_version: self.protocol_version@,
            public_key: self.public_key@,
            observed_addr: self.observed_addr@,
            listen_addrs: address_views(self.listen_addrs@),
        }
    }
}

/// Copies a list of addresses.
pub fn clone_addresses(addresses: &Vec<Address>) -> (copy: Vec<Address>)
    ensures
        address_views(copy@) == address_views(addresses@),
{
    let mut copy: Vec<Address> = Vec::new();
    let mut i: usize = 0;
    while i < addresses.len()
        invariant
            i <= addresses@.len(),
            copy@.len() == i,
            forall|k: int| 0 <= k < i ==> copy@[k]@ == addresses@[k]@,
        decreases addresses@.len() - i,
    {
        copy.push(addresses[i].clone());
        i += 1;
    }
    copy
}

impl Clone for IdentifyInfo {
    fn clone(&self) -> (copy: IdentifyInfo)
        ensures
            copy@ == self@,
    {
        IdentifyInfo {
            protocol_version: self.protocol_version.clone(),
            public_key: slice_to_vec(self.public_key.as_slice()),
            observed_addr: self.observed_addr.clone(),
            listen_addrs: clone_addresses(&self.listen_addrs),
        }
    }
}

impl IdentifyInfo {
    /// The record that a node sends to a peer: its protocol version, its own
    /// public key, the address at which it sees the peer, and the addresses
    /// it listens on.
    pub fn local(
        identity: &NodeIdentity,
        protocol_version: String,
        observed_addr: Address,
        listen_addrs: Vec<Address>,
    ) -> (info: IdentifyInfo)
        ensures
            info@ == (InfoView {
                protocol_version: protocol_version@,
                public_key: identity@.public_key,
                observed_addr: observed_addr@,
                listen_addrs: address_views(listen_addrs@),
            }),
    {
        IdentifyInfo {
            protocol_version,
            public_key: identity.public_key(),
            observed_addr,
            listen_addrs,
        }
    }
}

/// What the identification behaviour reports.
#[derive(Debug)]
pub enum IdentifyEvent {
    /// The record of a peer has arrived.
    Received { peer: PeerId, info: IdentifyInfo },
    /// The record of this node was sent to a peer.
    Sent { peer: PeerId },
    /// The exchange with a peer failed.
    Failed { peer: PeerId },
}

impl IdentifyEvent {
    /// The event that reports the record received from a peer.
    pub fn received(peer: PeerId, info: IdentifyInfo) -> (event: IdentifyEvent)
        ensures
            event == (IdentifyEvent::Received { peer, info }),
    {
        IdentifyEvent::Received { peer, info }
    }
}

} // verus!

//! Addresses: the wildcard address a node listens on, and addresses as the
//! byte strings in which peers exchange them.

use crate::bytes::bytes_equal;
use libp2p::multiaddr::Protocol;
use libp2p::Multiaddr;
use vstd::prelude::*;

verus! {

/// Network family of a listen address.
#[derive(Clone, Copy, Debug, PartialEq, Eq, Structural)]
pub enum Family {
    V4,
    V6,
}

/// Transport protocol of a listen address.
#[derive(Clone, Copy, Debug, PartialEq, Eq, Structural)]
pub enum TransportTag {
    Tcp,
}

/// The upper byte of a port.
pub open spec fn port_high(port: u16) -> u8 {
    (port / 256) as u8
}

/// The lower byte of a port.
pub open spec fn port_low(port: u16) -> u8 {
    (port % 256) as u8
}

/// The binary multiaddress of the wildcard address of a family with a TCP
/// port: the code of the family, the unspecified address, the code of TCP
/// and the port with its upper byte first.
pub open spec fn wildcard_multiaddr(family: Family, port: u16) -> Seq<u8> {
    match family {
        Family::V4 => seq![4u8] + Seq::new(4, |i: int| 0u8) + seq![
            6u8,
            port_high(port),
            port_low(port),
        ],
        Family::V6 => seq![41u8] + Seq::new(16, |i: int| 0u8) + seq![
            6u8,
            port_high(port),
            port_low(port),
        ],
    }
}

/// Builds `/ip4/0.0.0.0/tcp/<port>` with `Multiaddr::with` and returns its
/// bytes.
///
/// Trusted: `Protocol::write_bytes` writes each component as its code and its
/// value, an IPv4 address as its four octets, a port with its upper byte
/// first.
#[verifier::external_body]
fn wildcard_v4_tcp(port: u16) -> (bytes: Vec<u8>)
    ensures
        bytes@ == wildcard_multiaddr(Family::V4, port),
{
    Multiaddr::empty().with(Protocol::Ip4([0u8; 4].into())).with(Protocol::Tcp(port)).to_vec()
}

/// Builds `/ip6/::/tcp/<port>` with `Multiaddr::with` and returns its bytes.
///
/// Trusted: as for IPv4, with the address written as its eight segments of
/// two bytes each.
#[verifier::external_body]
fn wildcard_v6_tcp(port: u16) -> (bytes: Vec<u8>)
    ensures
        bytes@ == wildcard_multiaddr(Family::V6, port),
{
    Multiaddr::empty().with(Protocol::Ip6([0u16; 8].into())).with(Protocol::Tcp(port)).to_vec()
}

/// An address of a peer, as the bytes of its multiaddress.
#[derive(Debug)]
pub struct Address {
    bytes: Vec<u8>,
}

impl View for Address {
    type V = Seq<u8>;

    closed spec fn view(&self) -> Seq<u8> {
        self.bytes@
    }
}

impl Clone for Address {
    fn clone(&self) -> (copy: Address)
        ensures
            copy@ == self@,
    {
        Address { bytes: self.bytes.clone() }
    }
}

impl Address {
    /// Wraps the bytes of a multiaddress.
    pub fn from_bytes(bytes: Vec<u8>) -> (address: Address)
        ensures
            address@ == bytes@,
    {
        Address { bytes }
    }

    /// The bytes of the multiaddress.
    pub fn to_bytes(&self) -> (bytes: Vec<u8>)
        ensures
            bytes@ == self@,
    {
        self.bytes.clone()
    }

    /// Whether two addresses are the same.
    pub fn same(&self, other: &Address) -> (b: bool)
        ensures
            b == (self@ == other@),
    {
        bytes_equal(self.bytes.as_slice(), other.bytes.as_slice())
    }
}

/// An address to listen on: the wildcard address of a family, with a port.
#[derive(Clone, Copy, Debug, PartialEq, Eq, Structural)]
pub struct ListenAddress {
    pub family: Family,
    pub port: u16,
    pub transport: TransportTag,
}

impl ListenAddress {
    /// The listen address for the configured family and port: IPv6 where it
    /// was asked for, IPv4 otherwise.
    pub fn wildcard(use_ipv6: Option<bool>, port: u16) -> (listen: ListenAddress)
        ensures
            listen.family == (if use_ipv6 == Some(true) {
                Family::V6
            } else {
                Family::V4
            }),
            listen.port == port,
            listen.transport == TransportTag::Tcp,
    {
        let family = match use_ipv6 {
            Some(true) => Family::V6,
            _ => Family::V4,
        };
        ListenAddress { family, port, transport: TransportTag::Tcp }
    }

    /// The multiaddress of this listen address.
    pub fn to_address(&self) -> (address: Address)
        ensures
            address@ == wildcard_multiaddr(self.family, self.port),
    {
        let bytes = match self.family {
            Family::V4 => wildcard_v4_tcp(self.port),
            Family::V6 => wildcard_v6_tcp(self.port),
        };
        Address { bytes }
    }
}

/// Listen addresses that differ in family or port have different
/// multiaddresses.
pub proof fn lemma_wildcard_multiaddr_injective(a: ListenAddress, b: ListenAddress)
    requires
        wildcard_multiaddr(a.family, a.port) == wildcard_multiaddr(b.family, b.port),
    ensures
        a.family == b.family,
        a.port == b.port,
{
    let x = wildcard_multiaddr(a.family, a.port);
    let y = wildcard_multiaddr(b.family, b.port);
    assert(x[0] == y[0]);
    let n = x.len() as int;
    assert(y[n - 2] == port_high(b.port));
    assert(y[n - 1] == port_low(b.port));
}

} // verus!

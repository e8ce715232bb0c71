//! The transport's upgrade pipeline: a raw connection is secured, then
//! multiplexed, and only then handed on as a connection.

use crate::address::Address;
use crate::session::{
    negotiated_peer, presented_peer, HandshakeOutcome, MultiplexedSession, MuxView,
    NegotiationError, SecureSession,
};
use vstd::prelude::*;

verus! {

/// A connection, as plain values.
pub struct ConnectionView {
    pub local_addr: Seq<u8>,
    pub remote_addr: Seq<u8>,
    pub session: MuxView,
}

/// A connection that went through both stages: its two endpoints and its
/// multiplexed session, which names the remote peer.
#[derive(Debug)]
pub struct Connection {
    pub local_addr: Address,
    pub remote_addr: Address,
    pub session: MultiplexedSession,
}

impl View for Connection {
    type V = ConnectionView;

    open spec fn view(&self) -> ConnectionView {
        ConnectionView {
            local_addr: self.local_addr@,
            remote_addr: self.remote_addr@,
            session: self.session@,
        }
    }
}

impl Connection {
    /// Upgrades an accepted or dialed connection whose handshake ended with
    /// `outcome`: it is secured, then multiplexed. A connection whose
    /// handshake failed is dropped, with the error of the negotiation, and
    /// never becomes a connection.
    pub fn establish(local_addr: Address, remote_addr: Address, outcome: HandshakeOutcome) -> (r:
        Result<Connection, NegotiationError>)
        ensures
            match r {
                Ok(connection) => negotiated_peer(outcome, presented_peer(outcome)) == Ok::<
                    Seq<u8>,
                    NegotiationError,
                >(connection@.session.remote_peer) && connection@ == (ConnectionView {
                    local_addr: local_addr@,
                    remote_addr: remote_addr@,
                    session: MuxView {
                        remote_peer: connection@.session.remote_peer,
                        remote_key: outcome->remote_key@,
                        closed: false,
                        streams: Set::empty(),
                    },
                }),
                Err(e) => negotiated_peer(outcome, presented_peer(outcome)) == Err::<
                    Seq<u8>,
                    NegotiationError,
                >(e),
            },
    {
        match SecureSession::upgrade(outcome) {
            Ok(secure) => Ok(
                Connection { local_addr, remote_addr, session: MultiplexedSession::open(secure) },
            ),
            Err(e) => Err(e),
        }
    }
}

} // verus!

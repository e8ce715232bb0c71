//! Sessions: what a connection becomes once it is secured, and the streams
//! of a secured session once it is multiplexed.
//!
//! A multiplexed session can only be made from a secure session, and a secure
//! session only from a handshake that succeeded, so no stream is ever opened
//! on a connection that skipped a stage.

use crate::bytes::slice_to_vec;
use crate::identity::{key_peer_id, PeerId};
use vstd::prelude::*;

verus! {

/// Why a connection could not be secured.
#[derive(Clone, Copy, Debug, PartialEq, Eq, Structural)]
pub enum NegotiationError {
    /// The handshake messages were malformed or rejected.
    HandshakeFailed,
    /// The remote did not answer in time.
    Timeout,
    /// The underlying connection was closed.
    IoError,
}

/// Why a stream could not be had.
#[derive(Clone, Copy, Debug, PartialEq, Eq, Structural)]
pub enum MuxError {
    /// The session under the stream has been torn down.
    SessionClosed,
}

/// How a handshake on a raw connection ended.
#[derive(Debug)]
pub enum HandshakeOutcome {
    /// Both sides proved possession of their keys; the remote presented this
    /// protobuf-encoded public key.
    Completed { remote_key: Vec<u8> },
    /// A handshake message was malformed or rejected.
    Rejected,
    /// The remote did not answer within the bound.
    TimedOut,
    /// The connection was closed under the handshake.
    Closed,
}

/// The remote peer of a negotiation, or the error with which it failed, given
/// how the handshake ended and the identifier of the presented key.
pub open spec fn negotiated_peer(outcome: HandshakeOutcome, key_owner: Option<Seq<u8>>) -> Result<
    Seq<u8>,
    NegotiationError,
> {
    match outcome {
        HandshakeOutcome::Completed { .. } => match key_owner {
            Some(peer) => Ok(peer),
            None => Err(NegotiationError::HandshakeFailed),
        },
        HandshakeOutcome::Rejected => Err(NegotiationError::HandshakeFailed),
        HandshakeOutcome::TimedOut => Err(NegotiationError::Timeout),
        HandshakeOutcome::Closed => Err(NegotiationError::IoError),
    }
}

/// The identifier of the key that a handshake presented, if it presented one
/// and the bytes are a key.
pub open spec fn presented_peer(outcome: HandshakeOutcome) -> Option<Seq<u8>> {
    match outcome {
        HandshakeOutcome::Completed { remote_key } => key_peer_id(remote_key@),
        _ => None,
    }
}

/// An optional identifier as optional bytes.
pub open spec fn peer_view(peer: Option<PeerId>) -> Option<Seq<u8>> {
    match peer {
        Some(peer) => Some(peer@),
        None => None,
    }
}

/// Decides a negotiation from how the handshake ended and from the identifier
/// that belongs to the presented key (`None` where the key is no key).
pub fn classify(outcome: &HandshakeOutcome, key_owner: Option<PeerId>) -> (r: Result<
    PeerId,
    NegotiationError,
>)
    ensures
        match r {
            Ok(peer) => negotiated_peer(*outcome, peer_view(key_owner)) == Ok::<
                Seq<u8>,
                NegotiationError,
            >(peer@),
            Err(e) => negotiated_peer(*outcome, peer_view(key_owner)) == Err::<
                Seq<u8>,
                NegotiationError,
            >(e),
        },
{
    match outcome {
        HandshakeOutcome::Completed { .. } => match key_owner {
            Some(peer) => Ok(peer),
            None => Err(NegotiationError::HandshakeFailed),
        },
        HandshakeOutcome::Rejected => Err(NegotiationError::HandshakeFailed),
        HandshakeOutcome::TimedOut => Err(NegotiationError::Timeout),
        HandshakeOutcome::Closed => Err(NegotiationError::IoError),
    }
}

/// A secure session, as plain values.
pub struct SecureView {
    pub remote_peer: Seq<u8>,
    pub remote_key: Seq<u8>,
}

/// An authenticated, encrypted channel, bound to the peer that holds the key
/// presented in the handshake.
#[derive(Debug)]
pub struct SecureSession {
    remote_peer: PeerId,
    remote_key: Vec<u8>,
}

impl View for SecureSession {
    type V = SecureView;

    closed spec fn view(&self) -> SecureView {
        SecureView { remote_peer: self.remote_peer@, remote_key: self.remote_key@ }
    }
}

impl SecureSession {
    #[verifier::type_invariant]
    spec fn bound(self) -> bool {
        key_peer_id(self.remote_key@) == Some(self.remote_peer@)
    }

    /// Turns the outcome of a handshake into a secure session. The remote
    /// peer is known only from the key that the handshake presented.
    ///
    /// Fails with `HandshakeFailed` where the handshake was rejected or the
    /// presented bytes are no key, with `Timeout` where the remote did not
    /// answer, with `IoError` where the connection was closed.
    pub fn upgrade(outcome: HandshakeOutcome) -> (r: Result<SecureSession, NegotiationError>)
        ensures
            match r {
                Ok(session) => negotiated_peer(outcome, presented_peer(outcome)) == Ok::<
                    Seq<u8>,
                    NegotiationError,
                >(session@.remote_peer) && outcome->remote_key@ == session@.remote_key
                    && key_peer_id(session@.remote_key) == Some(session@.remote_peer),
                Err(e) => negotiated_peer(outcome, presented_peer(outcome)) == Err::<
                    Seq<u8>,
                    NegotiationError,
                >(e),
            },
    {
        let key_owner = match &outcome {
            HandshakeOutcome::Completed { remote_key } => PeerId::of_public_key(
                remote_key.as_slice(),
            ),
            _ => None,
        };
        match classify(&outcome, key_owner) {
            Ok(remote_peer) => match outcome {
                HandshakeOutcome::Completed { remote_key } => Ok(
                    SecureSession { remote_peer, remote_key },
                ),
                _ => {
                    proof {
                        assert(false);
                    }
                    Err(NegotiationError::HandshakeFailed)
                },
            },
            Err(e) => Err(e),
        }
    }

    /// The remote peer, which is the holder of the presented key.
    pub fn remote_peer(&self) -> (peer: PeerId)
        ensures
            peer@ == self@.remote_peer,
            key_peer_id(self@.remote_key) == Some(peer@),
    {
        proof {
            use_type_invariant(self);
        }
        self.remote_peer.clone()
    }

    /// The public key that the remote presented.
    pub fn remote_key(&self) -> (key: Vec<u8>)
        ensures
            key@ == self@.remote_key,
    {
        slice_to_vec(self.remote_key.as_slice())
    }
}

/// Who opened a stream.
#[derive(Clone, Copy, Debug, PartialEq, Eq, Structural)]
pub enum StreamOrigin {
    /// Opened by this node.
    Local,
    /// Opened by the remote and accepted here.
    Remote,
}

/// A logical stream of a multiplexed session.
#[derive(Clone, Copy, Debug, PartialEq, Eq, Structural)]
pub struct Stream {
    pub id: usize,
    pub origin: StreamOrigin,
}

/// A multiplexed session, as plain values.
pub struct MuxView {
    pub remote_peer: Seq<u8>,
    pub remote_key: Seq<u8>,
    pub closed: bool,
    pub streams: Set<int>,
}

/// A secure session split into independent logical streams.
#[derive(Debug)]
pub struct MultiplexedSession {
    session: SecureSession,
    closed: bool,
    slots: Vec<bool>,
}

impl View for MultiplexedSession {
    type V = MuxView;

    closed spec fn view(&self) -> MuxView {
        MuxView {
            remote_peer: self.session@.remote_peer,
            remote_key: self.session@.remote_key,
            closed: self.closed,
            streams: Set::new(|id: int| 0 <= id < self.slots@.len() && self.slots@[id]),
        }
    }
}

impl MultiplexedSession {
    /// Wraps a secure session. No stream is open yet.
    pub fn open(session: SecureSession) -> (mux: MultiplexedSession)
        ensures
            mux@ == (MuxView {
                remote_peer: session@.remote_peer,
                remote_key: session@.remote_key,
                closed: false,
                streams: Set::empty(),
            }),
    {
        let mux = MultiplexedSession { session, closed: false, slots: Vec::new() };
        assert(mux@.streams =~= Set::<int>::empty());
        mux
    }

    /// The peer at the other end, which is the holder of the key presented
    /// in the handshake.
    pub fn remote_peer(&self) -> (peer: PeerId)
        ensures
            peer@ == self@.remote_peer,
            key_peer_id(self@.remote_key) == Some(peer@),
    {
        self.session.remote_peer()
    }

    /// The public key that the remote presented in the handshake.
    pub fn remote_key(&self) -> (key: Vec<u8>)
        ensures
            key@ == self@.remote_key,
    {
        self.session.remote_key()
    }

    /// Whether the session has been torn down.
    pub fn is_closed(&self) -> (closed: bool)
        ensures
            closed == self@.closed,
    {
        self.closed
    }

    /// Whether the stream with this identifier is open.
    pub fn has_stream(&self, id: usize) -> (open: bool)
        ensures
            open == self@.streams.contains(id as int),
    {
        id < self.slots.len() && self.slots[id]
    }

    fn claim(&mut self) -> (id: usize)
        ensures
            !old(self)@.streams.contains(id as int),
            forall|lower: int| 0 <= lower < id ==> old(self)@.streams.contains(lower),
            final(self)@ == (MuxView {
                streams: old(self)@.streams.insert(id as int),
                ..old(self)@
            }),
    {
        let mut id: usize = 0;
        while id < self.slots.len() && self.slots[id]
            invariant
                id <= self.slots@.len(),
                *self == *old(self),
                forall|lower: int| 0 <= lower < id ==> self.slots@[lower],
            decreases self.slots@.len() - id,
        {
            id += 1;
        }
        if id < self.slots.len() {
            self.slots.set(id, true);
        } else {
            self.slots.push(true);
        }
        assert(self@.streams =~= old(self)@.streams.insert(id as int));
        id
    }

    /// Opens a stream towards the remote. The stream gets the smallest
    /// identifier that no open stream has; the other streams stay as they are.
    ///
    /// Fails with `SessionClosed`, and changes nothing, exactly when the
    /// session has been torn down.
    pub fn open_stream(&mut self) -> (r: Result<Stream, MuxError>)
        ensures
            match r {
                Ok(stream) => !old(self)@.closed && stream.origin == StreamOrigin::Local
                    && !old(self)@.streams.contains(stream.id as int) && (forall|lower: int|
                    0 <= lower < stream.id ==> old(self)@.streams.contains(lower)) && final(self)@
                    == (MuxView {
                    streams: old(self)@.streams.insert(stream.id as int),
                    ..old(self)@
                }),
                Err(e) => old(self)@.closed && e == MuxError::SessionClosed && final(self)@ == old(
                    self,
                )@,
            },
    {
        if self.closed {
            return Err(MuxError::SessionClosed);
        }
        let id = self.claim();
        Ok(Stream { id, origin: StreamOrigin::Local })
    }

    /// Accepts a stream that the remote opened. It is numbered as a stream
    /// opened here would be.
    ///
    /// Fails with `SessionClosed`, and changes nothing, exactly when the
    /// session has been torn down.
    pub fn accept_stream(&mut self) -> (r: Result<Stream, MuxError>)
        ensures
            match r {
                Ok(stream) => !old(self)@.closed && stream.origin == StreamOrigin::Remote
                    && !old(self)@.streams.contains(stream.id as int) && (forall|lower: int|
                    0 <= lower < stream.id ==> old(self)@.streams.contains(lower)) && final(self)@
                    == (MuxView {
                    streams: old(self)@.streams.insert(stream.id as int),
                    ..old(self)@
                }),
                Err(e) => old(self)@.closed && e == MuxError::SessionClosed && final(self)@ == old(
                    self,
                )@,
            },
    {
        if self.closed {
            return Err(MuxError::SessionClosed);
        }
        let id = self.claim();
        Ok(Stream { id, origin: StreamOrigin::Remote })
    }

    /// Closes one stream and leaves the others open. Says whether the stream
    /// was open.
    pub fn close_stream(&mut self, id: usize) -> (was_open: bool)
        ensures
            was_open == old(self)@.streams.contains(id as int),
            final(self)@ == (MuxView {
                streams: old(self)@.streams.remove(id as int),
                ..old(self)@
            }),
    {
        if id < self.slots.len() && self.slots[id] {
            self.slots.set(id, false);
            assert(self@.streams =~= old(self)@.streams.remove(id as int));
            true
        } else {
            assert(self@.streams =~= old(self)@.streams.remove(id as int));
            false
        }
    }

    /// Tears the session down, and with it every stream.
    pub fn close(&mut self)
        ensures
            final(self)@ == (MuxView {
                closed: true,
                streams: Set::empty(),
                ..old(self)@
            }),
    {
        self.closed = true;
        self.slots.clear();
        assert(self@.streams =~= Set::<int>::empty());
    }
}

} // verus!

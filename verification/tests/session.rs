use libp2p::identity::Keypair;
use relay_node::identity::PeerId;
use relay_node::session::{
    classify, HandshakeOutcome, MultiplexedSession, MuxError, NegotiationError, SecureSession,
    Stream, StreamOrigin,
};

fn key_of(seed: u8) -> Vec<u8> {
    relay_node::identity::derive(seed).unwrap().public_key()
}

fn session_with(seed: u8) -> SecureSession {
    SecureSession::upgrade(HandshakeOutcome::Completed { remote_key: key_of(seed) }).unwrap()
}

#[test]
fn upgrade_binds_the_session_to_the_holder_of_the_presented_key() {
    for seed in [0u8, 1, 77, 255] {
        let key = key_of(seed);
        let session = SecureSession::upgrade(HandshakeOutcome::Completed { remote_key: key.clone() }).unwrap();
        let expected = relay_node::identity::derive(seed).unwrap().peer_id();
        assert!(session.remote_peer().same(&expected));
        assert!(session.remote_peer().same(&PeerId::of_public_key(&key).unwrap()));
        assert_eq!(session.remote_key(), key);
        assert_ne!(session.remote_peer().to_bytes(), key);
    }
}

#[test]
fn upgrade_agrees_with_the_peer_id_of_a_generated_key() {
    let mut bytes = [9u8; 32];
    bytes[31] = 200;
    let public = Keypair::ed25519_from_bytes(bytes).unwrap().public();
    let session = SecureSession::upgrade(HandshakeOutcome::Completed { remote_key: public.encode_protobuf() }).unwrap();
    assert_eq!(session.remote_peer().to_bytes(), public.to_peer_id().to_bytes());
}

#[test]
fn upgrade_fails_on_a_key_that_is_no_key() {
    for remote_key in [vec![], vec![1, 2, 3], vec![0x08, 0x01, 0x12, 0x20, 1, 2, 3]] {
        let r = SecureSession::upgrade(HandshakeOutcome::Completed { remote_key });
        assert_eq!(r.err(), Some(NegotiationError::HandshakeFailed));
    }
}

#[test]
fn upgrade_fails_as_the_handshake_failed() {
    assert_eq!(SecureSession::upgrade(HandshakeOutcome::Rejected).err(), Some(NegotiationError::HandshakeFailed));
    assert_eq!(SecureSession::upgrade(HandshakeOutcome::TimedOut).err(), Some(NegotiationError::Timeout));
    assert_eq!(SecureSession::upgrade(HandshakeOutcome::Closed).err(), Some(NegotiationError::IoError));
}

#[test]
fn classify_gives_the_owner_of_the_key_of_a_completed_handshake() {
    let owner = PeerId::from_bytes(vec![1, 2, 3]);
    let done = HandshakeOutcome::Completed { remote_key: vec![7] };
    assert!(classify(&done, Some(owner.clone())).unwrap().same(&owner));
    assert_eq!(classify(&done, None).err(), Some(NegotiationError::HandshakeFailed));
}

#[test]
fn classify_ignores_the_owner_when_the_handshake_failed() {
    let owner = PeerId::from_bytes(vec![1, 2, 3]);
    assert_eq!(classify(&HandshakeOutcome::Rejected, Some(owner.clone())).err(), Some(NegotiationError::HandshakeFailed));
    assert_eq!(classify(&HandshakeOutcome::TimedOut, Some(owner.clone())).err(), Some(NegotiationError::Timeout));
    assert_eq!(classify(&HandshakeOutcome::Closed, Some(owner)).err(), Some(NegotiationError::IoError));
    assert_eq!(classify(&HandshakeOutcome::Closed, None).err(), Some(NegotiationError::IoError));
}

#[test]
fn open_session_has_no_streams() {
    let mux = MultiplexedSession::open(session_with(1));
    assert!(!mux.is_closed());
    assert!(!mux.has_stream(0));
    assert!(mux.remote_peer().same(&relay_node::identity::derive(1).unwrap().peer_id()));
}

#[test]
fn streams_get_the_smallest_free_identifier() {
    let mut mux = MultiplexedSession::open(session_with(1));
    assert_eq!(mux.open_stream(), Ok(Stream { id: 0, origin: StreamOrigin::Local }));
    assert_eq!(mux.accept_stream(), Ok(Stream { id: 1, origin: StreamOrigin::Remote }));
    assert_eq!(mux.open_stream(), Ok(Stream { id: 2, origin: StreamOrigin::Local }));
    assert!(mux.close_stream(1));
    assert_eq!(mux.open_stream(), Ok(Stream { id: 1, origin: StreamOrigin::Local }));
    assert_eq!(mux.accept_stream(), Ok(Stream { id: 3, origin: StreamOrigin::Remote }));
}

#[test]
fn closing_a_stream_leaves_the_others_open() {
    let mut mux = MultiplexedSession::open(session_with(1));
    for _ in 0..4 {
        mux.open_stream().unwrap();
    }
    assert!(mux.close_stream(2));
    assert!(mux.has_stream(0) && mux.has_stream(1) && mux.has_stream(3));
    assert!(!mux.has_stream(2));
    assert!(!mux.close_stream(2));
    assert!(!mux.close_stream(17));
    assert!(mux.has_stream(0) && mux.has_stream(1) && mux.has_stream(3));
    assert!(!mux.is_closed());
}

#[test]
fn closed_session_gives_no_streams() {
    let mut mux = MultiplexedSession::open(session_with(1));
    mux.open_stream().unwrap();
    mux.accept_stream().unwrap();
    mux.close();
    assert!(mux.is_closed());
    assert!(!mux.has_stream(0));
    assert!(!mux.has_stream(1));
    assert_eq!(mux.open_stream(), Err(MuxError::SessionClosed));
    assert_eq!(mux.accept_stream(), Err(MuxError::SessionClosed));
    assert!(!mux.has_stream(0));
    assert!(!mux.close_stream(0));
    mux.close();
    assert!(mux.is_closed());
}

#[test]
fn multiplexed_session_keeps_the_presented_key() {
    let key = key_of(3);
    let mux = MultiplexedSession::open(session_with(3));
    assert_eq!(mux.remote_key(), key);
    assert!(mux.remote_peer().same(&PeerId::of_public_key(&key).unwrap()));
}

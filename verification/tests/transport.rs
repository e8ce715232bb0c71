use relay_node::address::Address;
use relay_node::session::{HandshakeOutcome, NegotiationError};
use relay_node::transport::Connection;

fn local() -> Address {
    Address::from_bytes(vec![4, 0, 0, 0, 0, 6, 0x0f, 0xa1])
}

fn remote() -> Address {
    Address::from_bytes(vec![4, 203, 0, 113, 7, 6, 0xc3, 0x50])
}

#[test]
fn established_connection_is_secured_and_multiplexed() {
    let peer = relay_node::identity::derive(8).unwrap();
    let outcome = HandshakeOutcome::Completed { remote_key: peer.public_key() };
    let mut connection = Connection::establish(local(), remote(), outcome).unwrap();
    assert!(connection.local_addr.same(&local()));
    assert!(connection.remote_addr.same(&remote()));
    assert!(connection.session.remote_peer().same(&peer.peer_id()));
    assert_eq!(connection.session.remote_key(), peer.public_key());
    assert!(!connection.session.is_closed());
    assert!(!connection.session.has_stream(0));
    assert_eq!(connection.session.open_stream().unwrap().id, 0);
}

#[test]
fn connection_that_fails_the_handshake_is_dropped() {
    let failures = vec![
        (HandshakeOutcome::Rejected, NegotiationError::HandshakeFailed),
        (HandshakeOutcome::TimedOut, NegotiationError::Timeout),
        (HandshakeOutcome::Closed, NegotiationError::IoError),
        (HandshakeOutcome::Completed { remote_key: vec![1, 2, 3] }, NegotiationError::HandshakeFailed),
    ];
    for (outcome, error) in failures {
        assert_eq!(Connection::establish(local(), remote(), outcome).err(), Some(error));
    }
}

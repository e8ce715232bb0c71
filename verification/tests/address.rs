use libp2p::Multiaddr;
use relay_node::address::{Address, Family, ListenAddress, TransportTag};

#[test]
fn wildcard_is_ipv4_unless_ipv6_is_asked_for() {
    assert_eq!(ListenAddress::wildcard(None, 4001).family, Family::V4);
    assert_eq!(ListenAddress::wildcard(Some(false), 4001).family, Family::V4);
    assert_eq!(ListenAddress::wildcard(Some(true), 4001).family, Family::V6);
}

#[test]
fn wildcard_keeps_port_and_transport() {
    let listen = ListenAddress::wildcard(Some(true), 65535);
    assert_eq!(listen.port, 65535);
    assert_eq!(listen.transport, TransportTag::Tcp);
    assert_eq!(
        ListenAddress::wildcard(None, 0),
        ListenAddress { family: Family::V4, port: 0, transport: TransportTag::Tcp }
    );
}

#[test]
fn ipv4_wildcard_has_the_expected_bytes() {
    let bytes = ListenAddress::wildcard(None, 4001).to_address().to_bytes();
    assert_eq!(bytes, vec![4, 0, 0, 0, 0, 6, 0x0f, 0xa1]);
}

#[test]
fn ipv6_wildcard_has_the_expected_bytes() {
    let bytes = ListenAddress::wildcard(Some(true), 4001).to_address().to_bytes();
    let mut expected = vec![41u8];
    expected.extend([0u8; 16]);
    expected.extend([6, 0x0f, 0xa1]);
    assert_eq!(bytes, expected);
}

#[test]
fn port_is_written_with_its_upper_byte_first() {
    assert_eq!(ListenAddress::wildcard(None, 1).to_address().to_bytes()[6..], [0, 1]);
    assert_eq!(ListenAddress::wildcard(None, 256).to_address().to_bytes()[6..], [1, 0]);
    assert_eq!(ListenAddress::wildcard(None, 65535).to_address().to_bytes()[6..], [255, 255]);
    assert_eq!(ListenAddress::wildcard(None, 0).to_address().to_bytes()[6..], [0, 0]);
}

#[test]
fn wildcard_bytes_parse_back_to_the_textual_address() {
    for port in [0u16, 1, 80, 255, 256, 4001, 65535] {
        let v4: Multiaddr = format!("/ip4/0.0.0.0/tcp/{port}").parse().unwrap();
        let v6: Multiaddr = format!("/ip6/::/tcp/{port}").parse().unwrap();
        assert_eq!(ListenAddress::wildcard(None, port).to_address().to_bytes(), v4.to_vec());
        assert_eq!(ListenAddress::wildcard(Some(true), port).to_address().to_bytes(), v6.to_vec());
        let back = Multiaddr::try_from(ListenAddress::wildcard(None, port).to_address().to_bytes());
        assert_eq!(back.unwrap(), v4);
    }
}

#[test]
fn listen_addresses_that_differ_have_different_bytes() {
    let a = ListenAddress::wildcard(None, 4001).to_address();
    let b = ListenAddress::wildcard(None, 4002).to_address();
    let c = ListenAddress::wildcard(Some(true), 4001).to_address();
    assert!(!a.same(&b));
    assert!(!a.same(&c));
    assert!(a.same(&ListenAddress::wildcard(Some(false), 4001).to_address()));
}

#[test]
fn address_keeps_its_bytes() {
    let a = Address::from_bytes(vec![4, 127, 0, 0, 1, 6, 0, 80]);
    assert_eq!(a.to_bytes(), vec![4, 127, 0, 0, 1, 6, 0, 80]);
    assert!(a.clone().same(&a));
    assert!(!a.same(&Address::from_bytes(vec![4, 127, 0, 0, 1, 6, 0, 81])));
    assert!(!a.same(&Address::from_bytes(vec![])));
}

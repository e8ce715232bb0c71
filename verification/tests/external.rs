use relay_node::address::Address;
use relay_node::external::ExternalAddressSet;
use relay_node::identity::PeerId;

fn peer(n: u8) -> PeerId {
    PeerId::from_bytes(vec![0, 1, n])
}

fn addr(n: u8) -> Address {
    Address::from_bytes(vec![4, 10, 0, 0, n, 6, 0x0f, 0xa1])
}

#[test]
fn new_set_is_empty() {
    let set = ExternalAddressSet::new();
    assert!(!set.contains(&peer(1), &addr(1)));
    assert!(!set.knows(&peer(1)));
    assert!(set.addresses_of(&peer(1)).is_empty());
}

#[test]
fn add_records_the_address_for_the_peer_only() {
    let mut set = ExternalAddressSet::new();
    assert!(set.add(peer(1), addr(1)));
    assert!(set.contains(&peer(1), &addr(1)));
    assert!(!set.contains(&peer(1), &addr(2)));
    assert!(!set.contains(&peer(2), &addr(1)));
    assert!(set.knows(&peer(1)));
    assert!(!set.knows(&peer(2)));
}

#[test]
fn add_is_idempotent() {
    let mut set = ExternalAddressSet::new();
    assert!(set.add(peer(1), addr(1)));
    assert!(!set.add(peer(1), addr(1)));
    assert!(!set.add(peer(1), addr(1)));
    let found = set.addresses_of(&peer(1));
    assert_eq!(found.len(), 1);
    assert!(found[0].same(&addr(1)));
}

#[test]
fn add_never_loses_an_address() {
    let mut set = ExternalAddressSet::new();
    for p in 0..4u8 {
        for a in 0..5u8 {
            set.add(peer(p), addr(a));
            for q in 0..=p {
                let upto = if q == p { a } else { 4 };
                for b in 0..=upto {
                    assert!(set.contains(&peer(q), &addr(b)));
                }
            }
        }
    }
}

#[test]
fn addresses_of_lists_each_address_of_the_peer_once() {
    let mut set = ExternalAddressSet::new();
    set.add(peer(1), addr(1));
    set.add(peer(2), addr(9));
    set.add(peer(1), addr(2));
    set.add(peer(1), addr(1));
    set.add(peer(1), addr(3));
    let found: Vec<Vec<u8>> = set.addresses_of(&peer(1)).iter().map(|a| a.to_bytes()).collect();
    assert_eq!(found, vec![addr(1).to_bytes(), addr(2).to_bytes(), addr(3).to_bytes()]);
    let other: Vec<Vec<u8>> = set.addresses_of(&peer(2)).iter().map(|a| a.to_bytes()).collect();
    assert_eq!(other, vec![addr(9).to_bytes()]);
    assert!(set.addresses_of(&peer(3)).is_empty());
}

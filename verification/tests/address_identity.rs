use libp2p::identity::Keypair;
use metaphy_network::address::ListenAddress;
use metaphy_network::identity::NodeIdentity;

#[test]
fn ephemeral_address_is_any_port_on_every_interface() {
    let address = ListenAddress::ephemeral().expect("the ephemeral address parses");
    assert_eq!(address.as_bytes(), &vec![4u8, 0, 0, 0, 0, 6, 0, 0]);
    let parsed: libp2p::Multiaddr = "/ip4/0.0.0.0/tcp/0".parse().unwrap();
    assert_eq!(address.as_bytes(), &parsed.to_vec());
}

#[test]
fn parse_gives_the_binary_form() {
    let address = ListenAddress::parse("/ip4/127.0.0.1/tcp/4001").expect("a valid address");
    assert_eq!(address.as_bytes(), &vec![4u8, 127, 0, 0, 1, 6, 0x0f, 0xa1]);
}

#[test]
fn parse_turns_down_what_is_no_address() {
    assert!(ListenAddress::parse("not an address").is_none());
    assert!(ListenAddress::parse("ip4/127.0.0.1").is_none());
    assert!(ListenAddress::parse("/ip4/999.0.0.1/tcp/1").is_none());
}

#[test]
fn the_empty_text_is_the_empty_address() {
    let address = ListenAddress::parse("").expect("the empty text denotes the empty address");
    assert!(address.as_bytes().is_empty());
    assert!(ListenAddress::parse("/").is_none());
}

#[test]
fn same_as_compares_the_bytes() {
    let a = ListenAddress::from_bytes(vec![4, 127, 0, 0, 1, 6, 0, 80]);
    let b = ListenAddress::from_bytes(vec![4, 127, 0, 0, 1, 6, 0, 80]);
    let c = ListenAddress::from_bytes(vec![4, 127, 0, 0, 1, 6, 0, 81]);
    let d = ListenAddress::from_bytes(vec![4, 127, 0, 0, 1]);
    assert!(a.same_as(&b));
    assert!(!a.same_as(&c));
    assert!(!a.same_as(&d));
    assert!(!d.same_as(&a));
    assert!(ListenAddress::from_bytes(vec![]).same_as(&ListenAddress::from_bytes(vec![])));
}

#[test]
fn duplicate_is_the_same_address() {
    let a = ListenAddress::parse("/ip4/10.1.2.3/tcp/9000").unwrap();
    let copy = a.duplicate();
    assert!(copy.same_as(&a));
    assert_eq!(copy.as_bytes(), a.as_bytes());
}

#[test]
fn a_supplied_key_pair_is_kept_and_its_identifier_derived() {
    let keypair = Keypair::generate_ed25519();
    let expected = keypair.public().to_peer_id();
    let public = keypair.public();
    let identity = NodeIdentity::create(Some(keypair));
    assert_eq!(*identity.peer_id(), expected);
    assert_eq!(identity.keypair().public(), public);
}

#[test]
fn a_generated_identity_is_fresh_each_time() {
    let first = NodeIdentity::create(None);
    let second = NodeIdentity::create(None);
    assert_ne!(first.peer_id(), second.peer_id());
    assert_eq!(*first.peer_id(), first.keypair().public().to_peer_id());
    assert_eq!(*second.peer_id(), second.keypair().public().to_peer_id());
}

use c6::peer::{
    PeerCtx, BROADCAST, INITIAL_RECEIVER_ID, RECEIVER_ID_MAX, ROLE_TAG,
};

const OWN: [u8; 6] = [0x24, 0x6F, 0x28, 0x01, 0x02, 0x03];

#[test]
fn constants_of_the_identity() {
    assert_eq!(BROADCAST, [0xFF; 6]);
    assert_eq!(INITIAL_RECEIVER_ID, 0);
    assert_eq!(RECEIVER_ID_MAX, 31);
    assert_eq!(&ROLE_TAG, b"lcd");
}

#[test]
fn starts_unassigned() {
    let peer = PeerCtx::new();
    assert_eq!(peer.receiver_id(), 0);
    assert!(!peer.is_assigned());
}

#[test]
fn default_is_new() {
    let peer = PeerCtx::default();
    assert_eq!(peer.receiver_id(), 0);
    assert!(!peer.is_assigned());
}

#[test]
fn takes_an_id_for_its_own_address() {
    let mut peer = PeerCtx::new();
    assert!(peer.assign(OWN, OWN, 7));
    assert_eq!(peer.receiver_id(), 7);
    assert!(peer.is_assigned());
}

#[test]
fn takes_the_initial_id_as_an_assignment() {
    let mut peer = PeerCtx::new();
    assert!(peer.assign(OWN, OWN, 0));
    assert_eq!(peer.receiver_id(), 0);
    assert!(peer.is_assigned());
}

#[test]
fn ignores_an_id_for_another_address() {
    for i in 0..6 {
        let mut other = OWN;
        other[i] ^= 1;
        let mut peer = PeerCtx::new();
        assert!(!peer.assign(OWN, other, 7));
        assert_eq!(peer.receiver_id(), 0);
        assert!(!peer.is_assigned());
    }
}

#[test]
fn ignores_an_id_without_a_bit() {
    let mut peer = PeerCtx::new();
    assert!(peer.assign(OWN, OWN, 31));
    assert!(!peer.assign(OWN, OWN, 32));
    assert!(!peer.assign(OWN, OWN, 255));
    assert_eq!(peer.receiver_id(), 31);
    assert!(peer.is_assigned());
}

#[test]
fn the_later_assignment_counts() {
    let mut peer = PeerCtx::new();
    assert!(peer.assign(OWN, OWN, 3));
    assert!(peer.assign(OWN, OWN, 9));
    assert_eq!(peer.receiver_id(), 9);
}

#[test]
fn formats_as_a_log_line() {
    let mut peer = PeerCtx::new();
    assert_eq!(peer.format(), "PeerCtx { receiver_id=0, assigned=false }");
    assert!(peer.assign(OWN, OWN, 7));
    assert_eq!(peer.format(), "PeerCtx { receiver_id=7, assigned=true }");
    assert!(peer.assign(OWN, OWN, 31));
    assert_eq!(peer.format(), "PeerCtx { receiver_id=31, assigned=true }");
    assert!(peer.assign(OWN, OWN, 20));
    assert_eq!(peer.format(), "PeerCtx { receiver_id=20, assigned=true }");
}

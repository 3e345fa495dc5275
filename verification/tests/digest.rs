use btclib::digest::MerkleRoot;
use btclib::uint::U256;

fn word(n: u64) -> [u8; 32] {
    let mut bytes = [0u8; 32];
    bytes[24..32].copy_from_slice(&n.to_be_bytes());
    bytes
}

#[test]
fn zero_digest_is_all_zero() {
    assert_eq!(btclib::digest::Hash::zero().as_bytes(), [0u8; 32]);
    assert_eq!(btclib::digest::Hash::zero(), btclib::digest::Hash::from_bytes([0u8; 32]));
}

#[test]
fn digest_keeps_its_bytes() {
    let mut bytes = word(0xdead_beef);
    bytes[0] = 0x80;
    let d = btclib::digest::Hash::from_bytes(bytes);
    assert_eq!(d.as_bytes(), bytes);
    assert_eq!(d.0.bytes, bytes);
}

#[test]
fn digest_below_target_matches() {
    let d = btclib::digest::Hash::from_bytes(word(99));
    assert!(d.matches_target(U256::from_be_bytes(word(100))));
}

#[test]
fn digest_equal_to_target_matches() {
    let d = btclib::digest::Hash::from_bytes(word(100));
    assert!(d.matches_target(U256::from_be_bytes(word(100))));
}

#[test]
fn digest_above_target_does_not_match() {
    let d = btclib::digest::Hash::from_bytes(word(101));
    assert!(!d.matches_target(U256::from_be_bytes(word(100))));
}

#[test]
fn digest_is_measured_big_endian() {
    // First byte set: a huge number, however small the rest.
    let mut high = [0u8; 32];
    high[0] = 1;
    let d = btclib::digest::Hash::from_bytes(high);
    assert!(!d.matches_target(U256::from_be_bytes(word(u64::MAX))));
    let low = btclib::digest::Hash::from_bytes(word(u64::MAX));
    assert!(low.matches_target(U256::from_be_bytes(high)));
}

#[test]
fn every_digest_matches_the_largest_target() {
    let max = U256::from_be_bytes([0xffu8; 32]);
    assert!(btclib::digest::Hash::from_bytes([0xffu8; 32]).matches_target(max));
    assert!(btclib::digest::Hash::zero().matches_target(max));
}

#[test]
fn only_the_zero_digest_matches_target_zero() {
    assert!(btclib::digest::Hash::zero().matches_target(U256::zero()));
    assert!(!btclib::digest::Hash::from_bytes(word(1)).matches_target(U256::zero()));
}

#[test]
fn digests_are_equal_when_all_bytes_are() {
    assert!(btclib::digest::Hash::from_bytes(word(5)) == btclib::digest::Hash::from_bytes(word(5)));
    assert!(btclib::digest::Hash::from_bytes(word(5)) != btclib::digest::Hash::from_bytes(word(6)));
}

#[test]
fn commitments_are_equal_when_their_digests_are() {
    let a = MerkleRoot(btclib::digest::Hash::from_bytes(word(5)));
    let b = MerkleRoot(btclib::digest::Hash::from_bytes(word(5)));
    let c = MerkleRoot(btclib::digest::Hash::from_bytes(word(6)));
    assert!(a == b);
    assert!(a != c);
}

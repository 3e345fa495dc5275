use btclib::uint::U256;

fn number(high: u8, low: u64) -> U256 {
    let mut bytes = [0u8; 32];
    bytes[0] = high;
    bytes[24..32].copy_from_slice(&low.to_be_bytes());
    U256::from_be_bytes(bytes)
}

#[test]
fn zero_is_thirty_two_zero_bytes() {
    assert_eq!(U256::zero().to_be_bytes(), [0u8; 32]);
    assert_eq!(U256::zero(), number(0, 0));
}

#[test]
fn bytes_round_trip() {
    let mut bytes = [0u8; 32];
    let mut i: usize = 0;
    while i < 32 {
        bytes[i] = (i as u8) * 7 + 1;
        i += 1;
    }
    let n = U256::from_be_bytes(bytes);
    assert_eq!(n.bytes, bytes);
    assert_eq!(n.to_be_bytes(), bytes);
}

#[test]
fn le_holds_between_equal_numbers() {
    assert!(number(3, 77).le(&number(3, 77)));
    assert!(U256::zero().le(&U256::zero()));
}

#[test]
fn le_follows_the_numbers_in_the_low_bytes() {
    assert!(number(0, 4).le(&number(0, 5)));
    assert!(!number(0, 5).le(&number(0, 4)));
    assert!(number(0, 0).le(&number(0, u64::MAX)));
    assert!(!number(0, u64::MAX).le(&number(0, 0)));
}

#[test]
fn le_reads_the_first_byte_as_the_most_significant() {
    // 0x01 00..00 is greater than 0x00 00..ff..ff, though every later byte is smaller.
    assert!(number(0, u64::MAX).le(&number(1, 0)));
    assert!(!number(1, 0).le(&number(0, u64::MAX)));
}

#[test]
fn le_decides_on_the_first_byte_that_differs() {
    // 0x0100 against 0x00ff in the two lowest bytes: 256 > 255.
    assert!(!number(0, 0x0100).le(&number(0, 0x00ff)));
    assert!(number(0, 0x00ff).le(&number(0, 0x0100)));
    // Byte 24 differs upwards, byte 31 downwards: the earlier byte decides.
    assert!(number(0, 0x0100_0000_0000_0000).le(&number(0, 0x0200_0000_0000_0000)));
    assert!(!number(0, 0x0200_0000_0000_0000).le(&number(0, 0x0100_0000_0000_00ff)));
}

#[test]
fn le_between_the_extremes() {
    let max = U256::from_be_bytes([0xffu8; 32]);
    assert!(U256::zero().le(&max));
    assert!(!max.le(&U256::zero()));
    assert!(max.le(&max));
}

#[test]
fn numbers_are_equal_when_all_bytes_are() {
    assert!(number(9, 1) == number(9, 1));
    assert!(number(9, 1) != number(9, 2));
    assert!(number(9, 1) != number(8, 1));
    let mut bytes = [0u8; 32];
    bytes[31] = 1;
    let mut other = bytes;
    other[17] = 1;
    assert!(U256::from_be_bytes(bytes) != U256::from_be_bytes(other));
}

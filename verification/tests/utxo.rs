use btclib::crypto::PublicKey;
use btclib::types::TransactionOutput;
use btclib::utxo::{UtxoDelta, UtxoSet};
use uuid::Uuid;

fn id(n: u64) -> btclib::digest::Hash {
    let mut bytes = [0u8; 32];
    bytes[24..32].copy_from_slice(&n.to_be_bytes());
    btclib::digest::Hash::from_bytes(bytes)
}

fn output(value: u64, token: u128) -> TransactionOutput {
    TransactionOutput {
        value,
        unique_id: Uuid::from_u128(token),
        pubkey: PublicKey { bytes: vec![2, 3, 5, 7] },
    }
}

fn same(a: &TransactionOutput, b: &TransactionOutput) -> bool {
    a.value == b.value && a.unique_id == b.unique_id && a.pubkey == b.pubkey
}

fn holds(set: &UtxoSet, n: u64, value: u64, token: u128) -> bool {
    match set.get(&id(n)) {
        Some(found) => same(found, &output(value, token)),
        None => false,
    }
}

#[test]
fn new_set_is_empty() {
    let set = UtxoSet::new();
    assert_eq!(set.len(), 0);
    assert!(set.entries().is_empty());
    assert!(!set.contains_key(&id(1)));
    assert!(set.get(&id(1)).is_none());
}

#[test]
fn insert_puts_the_output_under_its_digest() {
    let mut set = UtxoSet::new();
    assert!(set.insert(id(1), output(50, 1)).is_none());
    assert_eq!(set.len(), 1);
    assert!(set.contains_key(&id(1)));
    assert!(holds(&set, 1, 50, 1));
    assert!(!set.contains_key(&id(2)));
}

#[test]
fn insert_under_a_present_digest_replaces_and_returns_the_old_output() {
    let mut set = UtxoSet::new();
    set.insert(id(1), output(50, 1));
    set.insert(id(2), output(20, 2));
    let before = set.insert(id(1), output(70, 3));
    assert!(same(&before.unwrap(), &output(50, 1)));
    assert_eq!(set.len(), 2);
    assert!(holds(&set, 1, 70, 3));
    assert!(holds(&set, 2, 20, 2));
}

#[test]
fn remove_takes_the_output_out_and_returns_it() {
    let mut set = UtxoSet::new();
    set.insert(id(1), output(50, 1));
    set.insert(id(2), output(20, 2));
    set.insert(id(3), output(30, 3));
    let gone = set.remove(&id(2));
    assert!(same(&gone.unwrap(), &output(20, 2)));
    assert_eq!(set.len(), 2);
    assert!(!set.contains_key(&id(2)));
    assert!(holds(&set, 1, 50, 1));
    assert!(holds(&set, 3, 30, 3));
}

#[test]
fn remove_of_an_absent_digest_changes_nothing() {
    let mut set = UtxoSet::new();
    set.insert(id(1), output(50, 1));
    assert!(set.remove(&id(9)).is_none());
    assert_eq!(set.len(), 1);
    assert!(holds(&set, 1, 50, 1));
}

#[test]
fn entries_lists_each_output_once() {
    let mut set = UtxoSet::new();
    set.insert(id(1), output(50, 1));
    set.insert(id(2), output(20, 2));
    set.insert(id(1), output(60, 4));
    let entries = set.entries();
    assert_eq!(entries.len(), 2);
    let mut ones: usize = 0;
    let mut twos: usize = 0;
    for (digest, found) in entries.iter() {
        if *digest == id(1) {
            ones += 1;
            assert!(same(found, &output(60, 4)));
        }
        if *digest == id(2) {
            twos += 1;
            assert!(same(found, &output(20, 2)));
        }
    }
    assert_eq!(ones, 1);
    assert_eq!(twos, 1);
}

#[test]
fn clone_holds_the_same_outputs() {
    let mut set = UtxoSet::new();
    set.insert(id(1), output(50, 1));
    set.insert(id(2), output(20, 2));
    let copy = set.clone();
    set.remove(&id(1));
    assert_eq!(copy.len(), 2);
    assert!(holds(&copy, 1, 50, 1));
    assert!(holds(&copy, 2, 20, 2));
    assert_eq!(set.len(), 1);
}

#[test]
fn output_clone_keeps_value_token_and_owner() {
    let first = output(50, 0x0123_4567_89ab_cdef_0123_4567_89ab_cdef);
    let copy = first.clone();
    assert_eq!(copy.value, 50);
    assert_eq!(copy.unique_id, Uuid::from_u128(0x0123_4567_89ab_cdef_0123_4567_89ab_cdef));
    assert_eq!(copy.unique_id.as_u128(), first.unique_id.as_u128());
    assert_eq!(copy.pubkey, first.pubkey);
}

#[test]
fn apply_puts_in_what_was_created() {
    let mut set = UtxoSet::new();
    set.insert(id(1), output(50, 1));
    let mut produced = UtxoSet::new();
    produced.insert(id(2), output(20, 2));
    produced.insert(id(3), output(30, 3));
    set.apply(UtxoDelta { consumed: vec![], produced });
    assert_eq!(set.len(), 3);
    assert!(holds(&set, 1, 50, 1));
    assert!(holds(&set, 2, 20, 2));
    assert!(holds(&set, 3, 30, 3));
}

#[test]
fn apply_takes_out_what_was_spent() {
    let mut set = UtxoSet::new();
    set.insert(id(1), output(50, 1));
    set.insert(id(2), output(20, 2));
    set.apply(UtxoDelta { consumed: vec![id(1)], produced: UtxoSet::new() });
    assert_eq!(set.len(), 1);
    assert!(!set.contains_key(&id(1)));
    assert!(holds(&set, 2, 20, 2));
}

#[test]
fn apply_spends_and_creates_at_once() {
    let mut set = UtxoSet::new();
    set.insert(id(1), output(50, 1));
    set.insert(id(2), output(20, 2));
    let mut produced = UtxoSet::new();
    produced.insert(id(3), output(45, 3));
    produced.insert(id(4), output(5, 4));
    set.apply(UtxoDelta { consumed: vec![id(1)], produced });
    assert_eq!(set.len(), 3);
    assert!(!set.contains_key(&id(1)));
    assert!(holds(&set, 2, 20, 2));
    assert!(holds(&set, 3, 45, 3));
    assert!(holds(&set, 4, 5, 4));
}

#[test]
fn apply_does_not_keep_an_output_created_and_spent_by_the_same_block() {
    let mut set = UtxoSet::new();
    let mut produced = UtxoSet::new();
    produced.insert(id(3), output(45, 3));
    produced.insert(id(4), output(5, 4));
    set.apply(UtxoDelta { consumed: vec![id(3)], produced });
    assert_eq!(set.len(), 1);
    assert!(!set.contains_key(&id(3)));
    assert!(holds(&set, 4, 5, 4));
}

#[test]
fn apply_ignores_a_spent_digest_that_is_not_there() {
    let mut set = UtxoSet::new();
    set.insert(id(1), output(50, 1));
    set.apply(UtxoDelta { consumed: vec![id(9), id(9)], produced: UtxoSet::new() });
    assert_eq!(set.len(), 1);
    assert!(holds(&set, 1, 50, 1));
}

#[test]
fn apply_lets_a_created_output_replace_one_under_the_same_digest() {
    let mut set = UtxoSet::new();
    set.insert(id(1), output(50, 1));
    let mut produced = UtxoSet::new();
    produced.insert(id(1), output(60, 6));
    set.apply(UtxoDelta { consumed: vec![], produced });
    assert_eq!(set.len(), 1);
    assert!(holds(&set, 1, 60, 6));
}

#[test]
fn apply_of_an_empty_change_changes_nothing() {
    let mut set = UtxoSet::new();
    set.insert(id(1), output(50, 1));
    set.apply(UtxoDelta { consumed: vec![], produced: UtxoSet::new() });
    assert_eq!(set.len(), 1);
    assert!(holds(&set, 1, 50, 1));
}

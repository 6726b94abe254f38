use svm_hasher::{
    into_slices, is_well_framed, key_at, lookup_matches, push_cost_pair, same_key, units_used, Command, Error,
};

fn instruction_data(len: usize) -> Vec<u8> {
    let mut state: u32 = 0x2545_f491;
    (0..len)
        .map(|_| {
            state ^= state << 13;
            state ^= state >> 17;
            state ^= state << 5;
            state as u8
        })
        .collect()
}

#[test]
pub fn test_hash_map() {
    let data = instruction_data(128);
    assert_eq!(svm_hasher::test_hash_map(&data), Ok(()));
}

#[test]
pub fn test_hash_set() {
    let data = instruction_data(128);
    assert_eq!(svm_hasher::test_hash_set(&data), Ok(()));
}

#[test]
fn map_check_fails_when_keys_repeat() {
    // Equal first and second keys: the later entry wins, so the first lookup
    // finds the third key's bytes instead of the fourth's.
    let mut data = vec![1u8; 32];
    data.extend(vec![1u8; 32]);
    data.extend(vec![2u8; 32]);
    data.extend(vec![3u8; 32]);
    assert_eq!(svm_hasher::test_hash_map(&data), Err(Error::Fail));
}

#[test]
fn map_check_passes_when_all_keys_are_equal() {
    let data = vec![5u8; 128];
    assert_eq!(svm_hasher::test_hash_map(&data), Ok(()));
}

#[test]
fn map_check_passes_when_first_and_last_keys_are_equal() {
    // Keys 1 and 4 are equal and are mapped to each other, so every lookup
    // still finds its value.
    let mut data = vec![1u8; 32];
    data.extend(vec![2u8; 32]);
    data.extend(vec![3u8; 32]);
    data.extend(vec![1u8; 32]);
    assert_eq!(svm_hasher::test_hash_map(&data), Ok(()));
}

#[test]
fn set_check_passes_with_repeated_keys() {
    let data = vec![9u8; 128];
    assert_eq!(svm_hasher::test_hash_set(&data), Ok(()));
}

#[test]
fn into_slices_splits_records() {
    let data = [3u8, 10, 11, 12, 2, 20, 21, 1, 30];
    let records = into_slices(&data);
    assert_eq!(records.len(), 3);
    assert_eq!(records[0], (&[10u8, 11][..], &[10u8, 11][..]));
    assert_eq!(records[1], (&[20u8][..], &[20u8][..]));
    assert_eq!(records[2], (&[][..], &[][..]));
}

#[test]
fn into_slices_of_nothing_is_empty() {
    assert!(into_slices(&[]).is_empty());
}

#[test]
fn commands_decode_by_tag() {
    assert_eq!(Command::from_tag(0), Some(Command::TestHashMap));
    assert_eq!(Command::from_tag(1), Some(Command::TestHashSet));
    assert_eq!(Command::from_tag(2), Some(Command::CompareHash));
    assert_eq!(Command::from_tag(3), Some(Command::CompareHashSet));
    assert_eq!(Command::from_tag(4), Some(Command::CompareHashMap));
    assert_eq!(Command::from_tag(5), Some(Command::CompareAll));
    assert_eq!(Command::from_tag(6), None);
    assert_eq!(Command::from_tag(255), None);
}

#[test]
fn units_used_subtracts_the_probe() {
    assert_eq!(units_used(1000, 600, 100), 300);
    assert_eq!(units_used(500, 400, 100), 0);
    assert_eq!(units_used(u64::MAX, 0, 0), u64::MAX);
    assert_eq!(units_used(100, 150, 0), u64::MAX - 49);
    assert_eq!(units_used(0, u64::MAX, 1), 0);
}

#[test]
fn cost_pairs_are_little_endian() {
    let mut out = vec![0xaa];
    push_cost_pair(&mut out, 0x0102030405060708, 300);
    assert_eq!(
        out,
        vec![0xaa, 8, 7, 6, 5, 4, 3, 2, 1, 0x2c, 0x01, 0, 0, 0, 0, 0, 0]
    );
}

#[test]
fn error_code_is_zero() {
    assert_eq!(Error::Fail.code(), 0);
}

#[test]
fn keys_are_read_in_32_byte_steps() {
    let data: Vec<u8> = (0u8..96).collect();
    let key = key_at(&data, 2);
    assert_eq!(key[0], 64);
    assert_eq!(key[31], 95);
    assert!(same_key(&key_at(&data, 1), &key_at(&data, 1)));
    assert!(!same_key(&key_at(&data, 0), &key_at(&data, 1)));
}

#[test]
fn lookups_match_only_the_expected_value() {
    let a = [1u8; 32];
    let b = [2u8; 32];
    assert!(lookup_matches(Some(&a), &a));
    assert!(!lookup_matches(Some(&b), &a));
    assert!(!lookup_matches(None, &a));
}

#[test]
fn framing_is_checked_record_by_record() {
    assert!(is_well_framed(&[]));
    assert!(is_well_framed(&[2, 1, 2, 1, 5]));
    assert!(!is_well_framed(&[0]));
    assert!(!is_well_framed(&[3, 1, 2]));
    assert!(!is_well_framed(&[1, 7, 2, 1]));
}

use xshare::hashes::{cyrb53_bytes, hash, key_fingerprint};

#[test]
fn cyrb53_of_empty_key() {
    assert_eq!(cyrb53_bytes(&[], 0), 3338908027751811);
}

#[test]
fn cyrb53_of_short_keys_and_seeds() {
    assert_eq!(cyrb53_bytes(b"abc", 0), 5059922895146125);
    assert_eq!(cyrb53_bytes(b"abc", 7), 4176743716076507);
}

#[test]
fn cyrb53_stays_below_two_to_the_53() {
    let key: Vec<u8> = (0u8..32).collect();
    let h = cyrb53_bytes(&key, 0);
    assert_eq!(h, 1858465915570382);
    assert!(h < (1u64 << 53));
}

#[test]
fn fingerprint_is_cyrb53_with_seed_zero() {
    let key: [u8; 32] = core::array::from_fn(|i| i as u8);
    assert_eq!(key_fingerprint(&key), 1858465915570382);
}

#[test]
fn fnv_of_empty_data_is_the_offset_basis() {
    assert_eq!(hash(&[], 0), 0xcbf29ce484222325u64 as usize);
}

#[test]
fn fnv_is_seeded() {
    assert_eq!(hash(b"abc", 0) as u64, 16654208175385433931);
    assert_eq!(hash(b"abc", 3) as u64, 18882020881032690);
    assert_eq!(hash(&[1u8; 32], 10) as u64, 7950706390153967311);
}

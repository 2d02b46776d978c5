use xshare::ascii::{
    bytes_to_string, encode_bytes_to_ascii_string, encode_u64_to_ascii_string,
    encode_u64_to_ascii_string_safe,
};
use xshare::codec::{
    bid_config_from_bytes, bid_config_to_bytes, decode_update, piece_to_bytes, update_to_bytes,
};
use xshare::types::{AdCampaignBidTrackPieceStruct, BidConfig, RollupUpdates};

#[test]
fn zero_encodes_to_the_empty_symbol() {
    assert_eq!(encode_u64_to_ascii_string(0), "");
    assert_eq!(encode_u64_to_ascii_string_safe(0), "");
}

#[test]
fn u64_encodings_are_positional() {
    assert_eq!(encode_u64_to_ascii_string(1), "\"");
    assert_eq!(encode_u64_to_ascii_string(94), "\"!");
    assert_eq!(encode_u64_to_ascii_string(12345678901234), "2u3*P^Y");
    assert_eq!(encode_u64_to_ascii_string_safe(67), "~");
    assert_eq!(encode_u64_to_ascii_string_safe(68), "10");
    assert_eq!(encode_u64_to_ascii_string_safe(u64::MAX), "8lQUtJgxEvn");
}

#[test]
fn byte_encodings_use_markers_above_thresholds() {
    assert_eq!(
        encode_bytes_to_ascii_string(&[0, 64, 65, 129, 130, 194, 195, 255], true),
        "0{}0}{~0~{|0|w"
    );
    assert_eq!(
        encode_bytes_to_ascii_string(&[0, 1, 90, 91, 181, 182, 255], false),
        "\"!{}\"}{~\"~j"
    );
    assert_eq!(encode_bytes_to_ascii_string(&[], true), "");
}

#[test]
fn distinct_payloads_encode_differently() {
    let a = encode_bytes_to_ascii_string(&[65], true);
    let b = encode_bytes_to_ascii_string(&[0, 0], true);
    assert_ne!(a, b);
}

#[test]
fn zero_terminated_text_stops_at_the_first_zero() {
    assert_eq!(bytes_to_string(b"abc\0def"), "abc");
    assert_eq!(bytes_to_string(b"hello"), "hello");
    assert_eq!(bytes_to_string(&[0, 65]), "");
}

#[test]
fn invalid_utf8_is_replaced() {
    assert_eq!(bytes_to_string(&[0x61, 0xff, 0x62, 0]), "a\u{fffd}b");
}

#[test]
fn bid_config_layout_and_round_trip() {
    let c = BidConfig {
        budget: 0x0102030405060708,
        bloom_accuracy: 0x1122,
        max_viewers: 0x3344,
        budget_per_view: 5,
        budget_per_click: 6,
    };
    let b = bid_config_to_bytes(&c);
    assert_eq!(b.len(), 28);
    assert_eq!(&b[0..8], &[8, 7, 6, 5, 4, 3, 2, 1]);
    assert_eq!(&b[8..12], &[0x22, 0x11, 0x44, 0x33]);
    assert_eq!(b[12], 5);
    assert_eq!(b[20], 6);
    let mut data = vec![9u8; 3];
    data.extend_from_slice(&b);
    assert_eq!(bid_config_from_bytes(&data, 3), c);
}

#[test]
fn update_round_trip_and_strict_decoding() {
    let u = RollupUpdates::CashoutBid { account: [7; 32], changes_count: 3, index: 2, earned: 99 };
    let b = update_to_bytes(&u);
    assert_eq!(b.len(), 53);
    assert_eq!(b[0], 1);
    assert_eq!(decode_update(&b, 0, b.len()), Some(u));
    let mut longer = b.clone();
    longer.extend_from_slice(&[0; 16]);
    assert_eq!(decode_update(&longer, 0, longer.len()), None);
    let r = RollupUpdates::RegisterBid {
        account: [1; 32],
        changes_count: 1,
        index: 0,
        budget: 10,
        budget_per_click: 2,
        budget_per_view: 3,
    };
    let rb = update_to_bytes(&r);
    assert_eq!(rb.len(), 69);
    assert_eq!(decode_update(&rb, 0, 69), Some(r));
    assert_eq!(decode_update(&vec![3u8; 69], 0, 69), None);
}

#[test]
fn piece_layout() {
    let p = AdCampaignBidTrackPieceStruct {
        state: 1,
        has_budget: 1,
        budget_per_view: 2,
        budget_per_click: 3,
        last_view: 4,
    };
    let b = piece_to_bytes(&p);
    assert_eq!(b, vec![1, 1, 2, 0, 0, 0, 0, 0, 0, 0, 3, 0, 0, 0, 0, 0, 0, 0, 4, 0, 0, 0]);
}

#[test]
fn byte_encodings_compose_and_stay_in_their_alphabet() {
    let a = [0u8, 70, 200];
    let b = [255u8, 1];
    let ab = [0u8, 70, 200, 255, 1];
    for safe in [true, false] {
        let whole = encode_bytes_to_ascii_string(&ab, safe);
        assert_eq!(whole, encode_bytes_to_ascii_string(&a, safe) + &encode_bytes_to_ascii_string(&b, safe));
        assert!(whole.len() >= ab.len() && whole.len() <= 2 * ab.len());
        for c in whole.chars() {
            if safe {
                assert!(c.is_ascii_alphanumeric() || "[]{|}~".contains(c));
            } else {
                assert!(('!'..='~').contains(&c));
            }
        }
    }
}

#[test]
fn number_encodings_keep_their_value_and_order() {
    let decode = |s: &str| s.chars().fold(0u64, |v, c| v * 94 + (c as u64 - 33));
    for v in [1u64, 93, 94, 95, 8835, 8836, 1_000_000, u64::MAX] {
        let s = encode_u64_to_ascii_string(v);
        assert_eq!(decode(&s), v);
        assert_ne!(s.chars().next(), Some('!'));
    }
    let pairs = [(93u64, 94u64), (100, 200), (8835, 8836), (94, 95)];
    for (x, y) in pairs {
        let (a, b) = (encode_u64_to_ascii_string(x), encode_u64_to_ascii_string(y));
        assert!(a.len() < b.len() || (a.len() == b.len() && a < b));
    }
}

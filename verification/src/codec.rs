//! The binary layouts (Borsh) of the records the program stores and sends.
use crate::bytes::{
    get_u16, get_u32, get_u64, le16, le32, le64, lemma_le_lengths, read_key, read_u16, read_u64,
};
use crate::types::{
    AdCampaignBidTrackPieceStruct, AdConfig, AssetBundler, BidConfig, CampaignConfig, RollupUpdates,
};
use vstd::bytes::*;
use vstd::prelude::*;
use vstd::utf8::encode_utf8;

verus! {

/// Size of an encoded [`BidConfig`].
pub const BID_CONFIG_SIZE: usize = 28;

/// Size of an encoded `RollupUpdates::RegisterBid`.
pub const REGISTER_BID_SIZE: usize = 69;

/// Size of an encoded `RollupUpdates::CashoutBid` or `DeletingBid`.
pub const CASHOUT_BID_SIZE: usize = 53;

/// Size of an encoded [`AdCampaignBidTrackPieceStruct`].
pub const PIECE_SIZE: usize = 22;

/// Size of an encoded [`CampaignConfig`].
pub const CAMPAIGN_CONFIG_SIZE: usize = 52;

/// Size of an encoded [`AdConfig`].
pub const AD_CONFIG_SIZE: usize = 68;

/// The encoding of a bool.
pub open spec fn bool_byte(b: bool) -> u8 {
    if b {
        1
    } else {
        0
    }
}

/// Appends `b` to `v`.
pub fn extend_bytes(v: &mut Vec<u8>, b: &[u8])
    ensures
        final(v)@ == old(v)@ + b@,
{
    let ghost start = v@;
    let mut i: usize = 0;
    while i < b.len()
        invariant
            i <= b@.len(),
            v@ =~= start + b@.take(i as int),
        decreases b@.len() - i,
    {
        v.push(b[i]);
        i = i + 1;
        assert(v@ =~= start + b@.take(i as int));
    }
    assert(b@.take(b@.len() as int) =~= b@);
}

/// The encoding of a [`BidConfig`]: its fields in order, little-endian.
pub open spec fn bid_config_bytes(c: BidConfig) -> Seq<u8> {
    le64(c.budget) + le16(c.bloom_accuracy) + le16(c.max_viewers) + le64(c.budget_per_view) + le64(
        c.budget_per_click,
    )
}

/// Encodes a [`BidConfig`].
pub fn bid_config_to_bytes(c: &BidConfig) -> (r: Vec<u8>)
    ensures
        r@ == bid_config_bytes(*c),
        r@.len() == BID_CONFIG_SIZE,
{
    proof {
        lemma_le_lengths(c.bloom_accuracy, 0, c.budget);
        lemma_le_lengths(c.max_viewers, 0, c.budget_per_view);
        lemma_le_lengths(0, 0, c.budget_per_click);
    }
    let mut r: Vec<u8> = Vec::new();
    extend_bytes(&mut r, u64_to_le_bytes(c.budget).as_slice());
    extend_bytes(&mut r, u16_to_le_bytes(c.bloom_accuracy).as_slice());
    extend_bytes(&mut r, u16_to_le_bytes(c.max_viewers).as_slice());
    extend_bytes(&mut r, u64_to_le_bytes(c.budget_per_view).as_slice());
    extend_bytes(&mut r, u64_to_le_bytes(c.budget_per_click).as_slice());
    r
}

/// The [`BidConfig`] stored from position `off` of `s`.
pub open spec fn read_bid_config(s: Seq<u8>, off: int) -> BidConfig {
    BidConfig {
        budget: read_u64(s, off),
        bloom_accuracy: read_u16(s, off + 8),
        max_viewers: read_u16(s, off + 10),
        budget_per_view: read_u64(s, off + 12),
        budget_per_click: read_u64(s, off + 20),
    }
}

/// Decodes the [`BidConfig`] stored in `data` from position `off` on; every
/// 28 bytes decode.
pub fn bid_config_from_bytes(data: &Vec<u8>, off: usize) -> (c: BidConfig)
    requires
        off + BID_CONFIG_SIZE <= data@.len(),
    ensures
        c == read_bid_config(data@, off as int),
{
    let _len = data.len();
    BidConfig {
        budget: get_u64(data, off),
        bloom_accuracy: get_u16(data, off + 8),
        max_viewers: get_u16(data, off + 10),
        budget_per_view: get_u64(data, off + 12),
        budget_per_click: get_u64(data, off + 20),
    }
}

/// Decoding the encoding of a [`BidConfig`] gives it back, and an
/// encoding is 28 bytes long.
pub proof fn lemma_bid_config_roundtrip(c: BidConfig, s: Seq<u8>, off: int)
    requires
        0 <= off,
        off + 28 <= s.len(),
        s.subrange(off, off + 28) == bid_config_bytes(c),
    ensures
        read_bid_config(s, off) == c,
        bid_config_bytes(c).len() == 28,
{
    lemma_le_lengths(c.bloom_accuracy, 0, c.budget);
    lemma_le_lengths(c.max_viewers, 0, c.budget_per_view);
    lemma_le_lengths(0, 0, c.budget_per_click);
    let b = bid_config_bytes(c);
    assert(s.subrange(off, off + 8) =~= b.subrange(0, 8));
    assert(b.subrange(0, 8) =~= le64(c.budget));
    assert(s.subrange(off + 8, off + 10) =~= b.subrange(8, 10));
    assert(b.subrange(8, 10) =~= le16(c.bloom_accuracy));
    assert(s.subrange(off + 10, off + 12) =~= b.subrange(10, 12));
    assert(b.subrange(10, 12) =~= le16(c.max_viewers));
    assert(s.subrange(off + 12, off + 20) =~= b.subrange(12, 20));
    assert(b.subrange(12, 20) =~= le64(c.budget_per_view));
    assert(s.subrange(off + 20, off + 28) =~= b.subrange(20, 28));
    assert(b.subrange(20, 28) =~= le64(c.budget_per_click));
}

/// The encoding of a [`RollupUpdates`]: the variant's position as one byte,
/// then its fields in order, little-endian.
pub open spec fn update_bytes(u: RollupUpdates) -> Seq<u8> {
    match u {
        RollupUpdates::RegisterBid {
            account,
            changes_count,
            index,
            budget,
            budget_per_click,
            budget_per_view,
        } => seq![0u8] + account@ + le64(changes_count) + le32(index) + le64(budget) + le64(
            budget_per_click,
        ) + le64(budget_per_view),
        RollupUpdates::CashoutBid { account, changes_count, index, earned } => seq![1u8] + account@
            + le64(changes_count) + le32(index) + le64(earned),
        RollupUpdates::DeletingBid { account, changes_count, index, must_pay_user } => seq![2u8]
            + account@ + le64(changes_count) + le32(index) + le64(must_pay_user),
    }
}

/// The encoding of a list holding the single update `u`: its length as a
/// little-endian `u32`, then the update.
pub open spec fn single_update_list_bytes(u: RollupUpdates) -> Seq<u8> {
    le32(1) + update_bytes(u)
}

/// What strict decoding makes of `s`: the update whose encoding is exactly
/// `s`, if there is one.
pub open spec fn spec_decode_update(s: Seq<u8>) -> Option<RollupUpdates> {
    if exists|u: RollupUpdates| update_bytes(u) == s {
        Some(choose|u: RollupUpdates| update_bytes(u) == s)
    } else {
        None
    }
}

/// An encoded update is 69 bytes long for a registration and 53 otherwise,
/// and starts with the variant's tag.
pub proof fn lemma_update_bytes_shape(u: RollupUpdates)
    ensures
        update_bytes(u).len() == (if u is RegisterBid {
            69int
        } else {
            53int
        }),
        update_bytes(u)[0] == (match u {
            RollupUpdates::RegisterBid { .. } => 0u8,
            RollupUpdates::CashoutBid { .. } => 1u8,
            RollupUpdates::DeletingBid { .. } => 2u8,
        }),
{
    match u {
        RollupUpdates::RegisterBid { changes_count, index, budget, budget_per_click, budget_per_view, .. } => {
            lemma_le_lengths(0, index, changes_count);
            lemma_le_lengths(0, 0, budget);
            lemma_le_lengths(0, 0, budget_per_click);
            lemma_le_lengths(0, 0, budget_per_view);
        },
        RollupUpdates::CashoutBid { changes_count, index, earned, .. } => {
            lemma_le_lengths(0, index, changes_count);
            lemma_le_lengths(0, 0, earned);
        },
        RollupUpdates::DeletingBid { changes_count, index, must_pay_user, .. } => {
            lemma_le_lengths(0, index, changes_count);
            lemma_le_lengths(0, 0, must_pay_user);
        },
    }
}

proof fn lemma_key_from_view(a: [u8; 32], b: [u8; 32])
    requires
        a@ == b@,
    ensures
        a == b,
{
    assert(a =~= b);
}

/// Two updates with the same encoding are the same update.
pub proof fn lemma_update_bytes_injective(u: RollupUpdates, v: RollupUpdates)
    requires
        update_bytes(u) == update_bytes(v),
    ensures
        u == v,
{
    lemma_update_bytes_shape(u);
    lemma_update_bytes_shape(v);
    let s = update_bytes(u);
    match (u, v) {
        (
            RollupUpdates::RegisterBid { account: a1, changes_count: c1, index: i1, budget: b1, budget_per_click: p1, budget_per_view: q1 },
            RollupUpdates::RegisterBid { account: a2, changes_count: c2, index: i2, budget: b2, budget_per_click: p2, budget_per_view: q2 },
        ) => {
            lemma_le_lengths(0, i1, c1);
            lemma_le_lengths(0, i2, c2);
            lemma_le_lengths(0, 0, b1);
            lemma_le_lengths(0, 0, b2);
            lemma_le_lengths(0, 0, p1);
            lemma_le_lengths(0, 0, p2);
            lemma_le_lengths(0, 0, q1);
            lemma_le_lengths(0, 0, q2);
            assert(a1@ =~= s.subrange(1, 33));
            assert(a2@ =~= s.subrange(1, 33));
            lemma_key_from_view(a1, a2);
            assert(le64(c1) =~= s.subrange(33, 41));
            assert(le64(c2) =~= s.subrange(33, 41));
            assert(le32(i1) =~= s.subrange(41, 45));
            assert(le32(i2) =~= s.subrange(41, 45));
            assert(le64(b1) =~= s.subrange(45, 53));
            assert(le64(b2) =~= s.subrange(45, 53));
            assert(le64(p1) =~= s.subrange(53, 61));
            assert(le64(p2) =~= s.subrange(53, 61));
            assert(le64(q1) =~= s.subrange(61, 69));
            assert(le64(q2) =~= s.subrange(61, 69));
        },
        (
            RollupUpdates::CashoutBid { account: a1, changes_count: c1, index: i1, earned: e1 },
            RollupUpdates::CashoutBid { account: a2, changes_count: c2, index: i2, earned: e2 },
        ) => {
            lemma_le_lengths(0, i1, c1);
            lemma_le_lengths(0, i2, c2);
            lemma_le_lengths(0, 0, e1);
            lemma_le_lengths(0, 0, e2);
            assert(a1@ =~= s.subrange(1, 33));
            assert(a2@ =~= s.subrange(1, 33));
            lemma_key_from_view(a1, a2);
            assert(le64(c1) =~= s.subrange(33, 41));
            assert(le64(c2) =~= s.subrange(33, 41));
            assert(le32(i1) =~= s.subrange(41, 45));
            assert(le32(i2) =~= s.subrange(41, 45));
            assert(le64(e1) =~= s.subrange(45, 53));
            assert(le64(e2) =~= s.subrange(45, 53));
        },
        (
            RollupUpdates::DeletingBid { account: a1, changes_count: c1, index: i1, must_pay_user: e1 },
            RollupUpdates::DeletingBid { account: a2, changes_count: c2, index: i2, must_pay_user: e2 },
        ) => {
            lemma_le_lengths(0, i1, c1);
            lemma_le_lengths(0, i2, c2);
            lemma_le_lengths(0, 0, e1);
            lemma_le_lengths(0, 0, e2);
            assert(a1@ =~= s.subrange(1, 33));
            assert(a2@ =~= s.subrange(1, 33));
            lemma_key_from_view(a1, a2);
            assert(le64(c1) =~= s.subrange(33, 41));
            assert(le64(c2) =~= s.subrange(33, 41));
            assert(le32(i1) =~= s.subrange(41, 45));
            assert(le32(i2) =~= s.subrange(41, 45));
            assert(le64(e1) =~= s.subrange(45, 53));
            assert(le64(e2) =~= s.subrange(45, 53));
        },
        _ => {},
    }
}

/// Strict decoding of an update's encoding gives the update back.
pub proof fn lemma_update_roundtrip(u: RollupUpdates)
    ensures
        spec_decode_update(update_bytes(u)) == Some(u),
{
    let s = update_bytes(u);
    assert(exists|v: RollupUpdates| update_bytes(v) == s);
    let w = choose|v: RollupUpdates| update_bytes(v) == s;
    lemma_update_bytes_injective(w, u);
}

/// Encodes an update.
pub fn update_to_bytes(u: &RollupUpdates) -> (r: Vec<u8>)
    ensures
        r@ == update_bytes(*u),
{
    let mut r: Vec<u8> = Vec::new();
    match u {
        RollupUpdates::RegisterBid {
            account,
            changes_count,
            index,
            budget,
            budget_per_click,
            budget_per_view,
        } => {
            r.push(0);
            extend_bytes(&mut r, account.as_slice());
            extend_bytes(&mut r, u64_to_le_bytes(*changes_count).as_slice());
            extend_bytes(&mut r, u32_to_le_bytes(*index).as_slice());
            extend_bytes(&mut r, u64_to_le_bytes(*budget).as_slice());
            extend_bytes(&mut r, u64_to_le_bytes(*budget_per_click).as_slice());
            extend_bytes(&mut r, u64_to_le_bytes(*budget_per_view).as_slice());
        },
        RollupUpdates::CashoutBid { account, changes_count, index, earned } => {
            r.push(1);
            extend_bytes(&mut r, account.as_slice());
            extend_bytes(&mut r, u64_to_le_bytes(*changes_count).as_slice());
            extend_bytes(&mut r, u32_to_le_bytes(*index).as_slice());
            extend_bytes(&mut r, u64_to_le_bytes(*earned).as_slice());
        },
        RollupUpdates::DeletingBid { account, changes_count, index, must_pay_user } => {
            r.push(2);
            extend_bytes(&mut r, account.as_slice());
            extend_bytes(&mut r, u64_to_le_bytes(*changes_count).as_slice());
            extend_bytes(&mut r, u32_to_le_bytes(*index).as_slice());
            extend_bytes(&mut r, u64_to_le_bytes(*must_pay_user).as_slice());
        },
    }
    assert(r@ =~= update_bytes(*u));
    r
}

/// Encodes a list holding the single update `u`.
pub fn single_update_list_to_bytes(u: &RollupUpdates) -> (r: Vec<u8>)
    ensures
        r@ == single_update_list_bytes(*u),
{
    let mut r = u32_to_le_bytes(1);
    let b = update_to_bytes(u);
    extend_bytes(&mut r, b.as_slice());
    r
}

/// Strictly decodes the `len` bytes of `data` from position `off` on as an
/// update: it succeeds exactly when those bytes are the encoding of one.
pub fn decode_update(data: &Vec<u8>, off: usize, len: usize) -> (r: Option<RollupUpdates>)
    requires
        off + len <= data@.len(),
    ensures
        r == spec_decode_update(data@.subrange(off as int, off + len)),
{
    let ghost s = data@.subrange(off as int, off + len);
    let _dlen = data.len();
    let tag = if len > 0 {
        data[off]
    } else {
        255
    };
    let r = if len == REGISTER_BID_SIZE && tag == 0 {
        Some(
            RollupUpdates::RegisterBid {
                account: read_key(data, off + 1),
                changes_count: get_u64(data, off + 33),
                index: get_u32(data, off + 41),
                budget: get_u64(data, off + 45),
                budget_per_click: get_u64(data, off + 53),
                budget_per_view: get_u64(data, off + 61),
            },
        )
    } else if len == CASHOUT_BID_SIZE && tag == 1 {
        Some(
            RollupUpdates::CashoutBid {
                account: read_key(data, off + 1),
                changes_count: get_u64(data, off + 33),
                index: get_u32(data, off + 41),
                earned: get_u64(data, off + 45),
            },
        )
    } else if len == CASHOUT_BID_SIZE && tag == 2 {
        Some(
            RollupUpdates::DeletingBid {
                account: read_key(data, off + 1),
                changes_count: get_u64(data, off + 33),
                index: get_u32(data, off + 41),
                must_pay_user: get_u64(data, off + 45),
            },
        )
    } else {
        None
    };
    proof {
        lemma_auto_spec_u64_to_from_le_bytes();
        lemma_auto_spec_u32_to_from_le_bytes();
        match r {
            Some(u) => {
                lemma_update_bytes_shape(u);
                let o = off as int;
                assert(data@.subrange(o + 33, o + 41) =~= s.subrange(33, 41));
                assert(data@.subrange(o + 41, o + 45) =~= s.subrange(41, 45));
                assert(data@.subrange(o + 45, o + 53) =~= s.subrange(45, 53));
                assert(data@.subrange(o + 1, o + 33) =~= s.subrange(1, 33));
                if len == REGISTER_BID_SIZE {
                    assert(data@.subrange(o + 53, o + 61) =~= s.subrange(53, 61));
                    assert(data@.subrange(o + 61, o + 69) =~= s.subrange(61, 69));
                    assert(s =~= s.subrange(0, 1) + s.subrange(1, 33) + s.subrange(33, 41)
                        + s.subrange(41, 45) + s.subrange(45, 53) + s.subrange(53, 61)
                        + s.subrange(61, 69));
                } else {
                    assert(s =~= s.subrange(0, 1) + s.subrange(1, 33) + s.subrange(33, 41)
                        + s.subrange(41, 45) + s.subrange(45, 53));
                }
                assert(s.subrange(0, 1) =~= seq![s[0]]);
                assert(update_bytes(u) =~= s);
                lemma_update_roundtrip(u);
            },
            None => {
                if exists|v: RollupUpdates| update_bytes(v) == s {
                    let v = choose|v: RollupUpdates| update_bytes(v) == s;
                    lemma_update_bytes_shape(v);
                    assert(s[0] == data@[off as int]);
                }
            },
        }
    }
    r
}

/// The encoding of a bid's slot in the campaign's bid-track account.
pub open spec fn piece_bytes(p: AdCampaignBidTrackPieceStruct) -> Seq<u8> {
    seq![p.state, p.has_budget] + le64(p.budget_per_view) + le64(p.budget_per_click) + le32(
        p.last_view,
    )
}

/// Encodes a bid's slot.
pub fn piece_to_bytes(p: &AdCampaignBidTrackPieceStruct) -> (r: Vec<u8>)
    ensures
        r@ == piece_bytes(*p),
        r@.len() == PIECE_SIZE,
{
    proof {
        lemma_le_lengths(0, p.last_view, p.budget_per_view);
        lemma_le_lengths(0, 0, p.budget_per_click);
    }
    let mut r: Vec<u8> = Vec::new();
    r.push(p.state);
    r.push(p.has_budget);
    extend_bytes(&mut r, u64_to_le_bytes(p.budget_per_view).as_slice());
    extend_bytes(&mut r, u64_to_le_bytes(p.budget_per_click).as_slice());
    extend_bytes(&mut r, u32_to_le_bytes(p.last_view).as_slice());
    assert(r@ =~= piece_bytes(*p));
    r
}

/// The encoding of a [`CampaignConfig`].
pub open spec fn campaign_config_bytes(c: CampaignConfig) -> Seq<u8> {
    seq![c.max_seconds, c.permission.code()] + c.categories@ + c.currency@ + le16(c.max_bidders)
}

/// Encodes a [`CampaignConfig`].
pub fn campaign_config_to_bytes(c: &CampaignConfig) -> (r: Vec<u8>)
    ensures
        r@ == campaign_config_bytes(*c),
        r@.len() == CAMPAIGN_CONFIG_SIZE,
{
    proof {
        lemma_le_lengths(c.max_bidders, 0, 0);
    }
    let mut r: Vec<u8> = Vec::new();
    r.push(c.max_seconds);
    r.push(c.permission.to_byte());
    extend_bytes(&mut r, c.categories.as_slice());
    extend_bytes(&mut r, c.currency.as_slice());
    extend_bytes(&mut r, u16_to_le_bytes(c.max_bidders).as_slice());
    assert(r@ =~= campaign_config_bytes(*c));
    r
}

/// The tag byte of an asset bundler.
pub fn bundler_to_byte(b: &AssetBundler) -> (r: u8)
    ensures
        r == b.code(),
{
    match b {
        AssetBundler::Arweave => 0,
        AssetBundler::IrysGateway => 1,
        AssetBundler::RawTurboDev => 2,
        AssetBundler::Raw => 3,
    }
}

/// The encoding of an [`AdConfig`].
pub open spec fn ad_config_bytes(c: AdConfig) -> Seq<u8> {
    seq![c.category] + le64(c.budget.total) + le64(c.budget.daily) + seq![c.asset_bundler.code()]
        + c.arweave@
}

/// Encodes an [`AdConfig`].
pub fn ad_config_to_bytes(c: &AdConfig) -> (r: Vec<u8>)
    ensures
        r@ == ad_config_bytes(*c),
        r@.len() == AD_CONFIG_SIZE,
{
    proof {
        lemma_le_lengths(0, 0, c.budget.total);
        lemma_le_lengths(0, 0, c.budget.daily);
    }
    let mut r: Vec<u8> = Vec::new();
    r.push(c.category);
    extend_bytes(&mut r, u64_to_le_bytes(c.budget.total).as_slice());
    extend_bytes(&mut r, u64_to_le_bytes(c.budget.daily).as_slice());
    r.push(bundler_to_byte(&c.asset_bundler));
    extend_bytes(&mut r, c.arweave.as_slice());
    assert(r@ =~= ad_config_bytes(*c));
    r
}

/// The encoding of a string: its UTF-8 length as a little-endian `u32`, then
/// its UTF-8 bytes.
pub open spec fn string_bytes(s: Seq<char>) -> Seq<u8> {
    le32(encode_utf8(s).len() as u32) + encode_utf8(s)
}

/// Encodes a string whose UTF-8 form fits a `u32` length.
pub fn string_to_bytes(s: &String) -> (r: Vec<u8>)
    requires
        encode_utf8(s@).len() <= u32::MAX,
    ensures
        r@ == string_bytes(s@),
{
    let b = s.as_str().as_bytes();
    let mut r = u32_to_le_bytes(b.len() as u32);
    extend_bytes(&mut r, b);
    r
}

} // verus!

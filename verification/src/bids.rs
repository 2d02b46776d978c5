//! Bids on ad spaces: opening a bid, the state of its slot in the campaign,
//! the messenger records that carry changes to the rollup, counting views
//! and clicks, and settling what a bid has earned.
use crate::bytes::{
    get_u32, get_u64, read_bytes, le32, le64, be64, lemma_le_lengths, lemma_splice_basics, lemma_splice_disjoint, put_u32,
    put_u64, put_u64_be, read_key, read_u32, read_u64, splice, write_bytes, write_zeros, zeros, keys_equal,
    key_is_zero,
};
use crate::codec::{
    bid_config_bytes, bid_config_from_bytes, bid_config_to_bytes, decode_update, lemma_bid_config_roundtrip,
    read_bid_config,
    lemma_update_bytes_shape, single_update_list_bytes, single_update_list_to_bytes,
    spec_decode_update, update_bytes, CASHOUT_BID_SIZE,
};
use crate::error::ProgramError;
use crate::layout::{
    AD_CAMPAIGN_BID_STATE_CASHINGOUT, AD_CAMPAIGN_BID_STATE_CASHINGOUT_PAUSED,
    AD_CAMPAIGN_BID_STATE_CREATING, AD_CAMPAIGN_BID_STATE_DELETING,
    AD_CAMPAIGN_BID_STATE_DELETING_PAUSED, AD_CAMPAIGN_BID_STATE_PAUSED,
    AD_CAMPAIGN_BID_STATE_READY, BID_TRACK_DISCRIMINATOR, MAX_ACCOUNT_GROWTH,
    MESSENGER_DELEGATED_CASHOUT, MESSENGER_PROCESSED_CASHOUT, MESSENGER_TO_CASHOUT_EARNED,
    MESSENGER_TO_PAYLOAD, MESSAGE_PAYLOAD_SIZE, START_FROM_AD_CAMPAIGN_BID_TRACKS,
    SPACE_IN_CAMPAIGN_BID_TRACK, TO_AD_CAMPAIGN_BID_EARNED, TO_AD_CAMPAIGN_BID_TRACK_CHANGE_COUNT,
    TO_BID_TRACK_TOTAL_CLICKS, TO_BID_TRACK_TOTAL_VIEWS, TO_BID_TRACK_VIEWS_IN_DAY,
    MESSENGER_TO_CREATOR, MESSENGER_TO_SLOT, MESSENGER_TO_STATE,
    MESSENGER_TO_STORE_HASH, MESSENGER_TO_UPDATES_WRITE, ROLLUP_MESSENGER_DISCRIMINATOR,
    START_FROM_AD_CAMPAIGN, START_FROM_BID_TRACK, TO_AD_CAMPAIGN_CHANGE_COUNT,
    TO_AD_CAMPAIGN_CONFIG_CURRENCY, TO_AD_CAMPAIGN_LIVING_BID, TO_AD_CAMPAIGN_SPACES_BID,
    TO_BID_TRACK_AD_CAMPAIGN, TO_BID_TRACK_AD_CONFIG, TO_BID_TRACK_AD_SPOT,
    TO_BID_TRACK_CAMPAIGN_BID_INDEX, TO_BID_TRACK_SIZE_HELPER,
};
use crate::bloom::{
    bloom_add, bloom_contains, bloom_in_range, bloom_index, bloom_insert, bloom_lookup_fits, lemma_bloom_add_frame,
    lemma_bloom_add_frame_after, lemma_bloom_contains_frame, lemma_bloom_no_false_negative,
};
use crate::layout::BLOOM_HASH_COUNT;
use crate::types::{AccountInfo, AdSpot, BidConfig, Pubkey, RollupUpdates, Store};
use crate::utils::pay_to_user;
use vstd::prelude::*;

verus! {

/// Bytes both bloom filters of a bid take: two filters of `bloom_bits / 8`
/// bytes.
pub open spec fn bloom_bytes(bloom_bits: usize) -> int {
    (bloom_bits / 8) * 2
}

/// What opening a bid decides before any account is touched.
#[derive(Debug, Clone, Copy, PartialEq, Eq, Structural)]
pub struct BidSpacePlan {
    /// Bytes of both bloom filters.
    pub bytes_in_bloom: usize,
    /// Whether the filters fit in one growth step, so the bid is delegated at once.
    pub must_delegate: bool,
    /// Size the bid-track account is created with.
    pub bytes_to_resize: usize,
    /// Size whose rent the bid track is funded for: its header and both
    /// filters.
    pub full_size: usize,
}

/// First step of bidding on a space: counts one more live bid on the spot
/// and sizes the bid's bloom filters from the number of bits they need.
pub fn bid_on_space_plan(ad_spot: &mut AdSpot, bloom_bits: usize) -> (p: BidSpacePlan)
    requires
        old(ad_spot).live_bids < u32::MAX,
    ensures
        final(ad_spot).live_bids == old(ad_spot).live_bids + 1,
        final(ad_spot).class == old(ad_spot).class,
        final(ad_spot).store_hash == old(ad_spot).store_hash,
        final(ad_spot).creator == old(ad_spot).creator,
        final(ad_spot).slot == old(ad_spot).slot,
        final(ad_spot).extra == old(ad_spot).extra,
        p.bytes_in_bloom == bloom_bytes(bloom_bits),
        p.must_delegate == (bloom_bytes(bloom_bits) <= MAX_ACCOUNT_GROWTH - START_FROM_BID_TRACK),
        p.bytes_to_resize == START_FROM_BID_TRACK,
        p.full_size == START_FROM_BID_TRACK + bloom_bytes(bloom_bits),
{
    ad_spot.live_bids = ad_spot.live_bids + 1;
    let bytes_in_bloom: usize = (bloom_bits / 8) * 2;
    let max_space = MAX_ACCOUNT_GROWTH - START_FROM_BID_TRACK;
    let must_delegate = bytes_in_bloom <= max_space;
    BidSpacePlan {
        bytes_in_bloom,
        must_delegate,
        bytes_to_resize: START_FROM_BID_TRACK,
        full_size: START_FROM_BID_TRACK + bytes_in_bloom,
    }
}

/// Number of bid slots a campaign needs once slot `index` is taken: one more
/// than the larger of what it has and `index + 1`.
pub open spec fn slots_needed(spaces_bids: u32, index: u32) -> int {
    (if spaces_bids > index {
        spaces_bids as int
    } else {
        index + 1
    }) + 1
}

/// What reserving a slot in a campaign reports to the caller.
#[derive(Debug, Clone, Copy, PartialEq, Eq, Structural)]
pub struct BidSlotReservation {
    /// The campaign's change counter after this change.
    pub changes_count: u64,
    /// Whether the campaign is paid in the native currency (all-zero mint).
    pub native_currency: bool,
    /// Size the campaign account needs.
    pub total_needed: usize,
    /// Number of slots added.
    pub different_size: u32,
    /// Whether the campaign account must grow to `total_needed`.
    pub grows: bool,
}

/// The campaign data after slot `index` is reserved.
pub open spec fn reserved_campaign(s: Seq<u8>, index: u32) -> Seq<u8> {
    let changes = (read_u64(s, TO_AD_CAMPAIGN_CHANGE_COUNT as int) + 1) as u64;
    let needed = slots_needed(read_u32(s, TO_AD_CAMPAIGN_SPACES_BID as int), index) as u32;
    let living = (read_u32(s, TO_AD_CAMPAIGN_LIVING_BID as int) + 1) as u32;
    splice(
        splice(
            splice(
                splice(s, TO_AD_CAMPAIGN_CHANGE_COUNT as int, le64(changes)),
                START_FROM_AD_CAMPAIGN + index,
                seq![AD_CAMPAIGN_BID_STATE_CREATING],
            ),
            TO_AD_CAMPAIGN_SPACES_BID as int,
            le32(needed),
        ),
        TO_AD_CAMPAIGN_LIVING_BID as int,
        le32(living),
    )
}

/// Reserves slot `index` of a campaign for a new bid: bumps the change
/// counter, marks the slot as being created, raises the number of slots and
/// counts one more living bid.  A slot already in use is `InvalidArgument`,
/// and then nothing changes.
pub fn reserve_bid_slot(campaign: &mut Vec<u8>, index: u32) -> (r: Result<BidSlotReservation, ProgramError>)
    requires
        START_FROM_AD_CAMPAIGN + index < old(campaign)@.len(),
        slots_needed(read_u32(old(campaign)@, TO_AD_CAMPAIGN_SPACES_BID as int), index) <= u32::MAX,
        START_FROM_AD_CAMPAIGN + slots_needed(
            read_u32(old(campaign)@, TO_AD_CAMPAIGN_SPACES_BID as int),
            index,
        ) <= usize::MAX,
        read_u64(old(campaign)@, TO_AD_CAMPAIGN_CHANGE_COUNT as int) < u64::MAX,
        old(campaign)@[START_FROM_AD_CAMPAIGN + index] == 0 ==> read_u32(
            old(campaign)@,
            TO_AD_CAMPAIGN_LIVING_BID as int,
        ) < u32::MAX,
    ensures
        r is Err <==> old(campaign)@[START_FROM_AD_CAMPAIGN + index] != 0,
        r is Err ==> r == Err::<BidSlotReservation, ProgramError>(ProgramError::InvalidArgument)
            && final(campaign)@ == old(campaign)@,
        r matches Ok(res) ==> {
            &&& res.changes_count == read_u64(old(campaign)@, TO_AD_CAMPAIGN_CHANGE_COUNT as int) + 1
            &&& res.native_currency == (old(campaign)@.subrange(
                TO_AD_CAMPAIGN_CONFIG_CURRENCY as int,
                TO_AD_CAMPAIGN_CONFIG_CURRENCY + 32,
            ) == zeros(32))
            &&& res.total_needed == START_FROM_AD_CAMPAIGN + slots_needed(
                read_u32(old(campaign)@, TO_AD_CAMPAIGN_SPACES_BID as int),
                index,
            )
            &&& res.different_size == slots_needed(
                read_u32(old(campaign)@, TO_AD_CAMPAIGN_SPACES_BID as int),
                index,
            ) - read_u32(old(campaign)@, TO_AD_CAMPAIGN_SPACES_BID as int)
            &&& res.grows == (res.total_needed > old(campaign)@.len())
            &&& final(campaign)@ == reserved_campaign(old(campaign)@, index)
        },
{
    let ghost s = campaign@;
    let len = campaign.len();
    let space_pos = START_FROM_AD_CAMPAIGN + index as usize;
    if campaign[space_pos] != 0 {
        return Err(ProgramError::InvalidArgument);
    }
    let spaces_bids = get_u32(campaign, TO_AD_CAMPAIGN_SPACES_BID);
    let campaign_changes_count = get_u64(campaign, TO_AD_CAMPAIGN_CHANGE_COUNT) + 1;
    let currency = read_key(campaign, TO_AD_CAMPAIGN_CONFIG_CURRENCY);
    let native_currency = key_is_zero(&currency);
    let living_bids = get_u32(campaign, TO_AD_CAMPAIGN_LIVING_BID);
    put_u64(campaign, TO_AD_CAMPAIGN_CHANGE_COUNT, campaign_changes_count);
    let max_space_needed: u32 = (if spaces_bids > index {
        spaces_bids
    } else {
        index + 1
    }) + 1;
    let different_size = max_space_needed - spaces_bids;
    let total_needed = START_FROM_AD_CAMPAIGN + max_space_needed as usize;
    campaign.set(space_pos, AD_CAMPAIGN_BID_STATE_CREATING);
    if max_space_needed > spaces_bids {
        put_u32(campaign, TO_AD_CAMPAIGN_SPACES_BID, max_space_needed);
    }
    put_u32(campaign, TO_AD_CAMPAIGN_LIVING_BID, living_bids + 1);
    proof {
        let s1 = splice(s, TO_AD_CAMPAIGN_CHANGE_COUNT as int, le64(campaign_changes_count));
        lemma_le_lengths(0, max_space_needed, campaign_changes_count);
        assert(s1.update(space_pos as int, AD_CAMPAIGN_BID_STATE_CREATING) =~= splice(
            s1,
            space_pos as int,
            seq![AD_CAMPAIGN_BID_STATE_CREATING],
        ));
    }
    Ok(
        BidSlotReservation {
            changes_count: campaign_changes_count,
            native_currency,
            total_needed,
            different_size,
            grows: total_needed > len,
        },
    )
}

/// The bid-track data after its header is written.
pub open spec fn bid_track_header(
    s: Seq<u8>,
    ad_campaign: Pubkey,
    ad_spot: Pubkey,
    index: u32,
    bid_config: BidConfig,
    bytes_in_bloom: usize,
    must_delegate: bool,
) -> Seq<u8> {
    let flag: u8 = if must_delegate {
        1
    } else {
        0
    };
    splice(
        splice(
            splice(
                splice(
                    splice(
                        splice(s, 0, BID_TRACK_DISCRIMINATOR@ + seq![11u8, flag, flag]),
                        TO_BID_TRACK_AD_CAMPAIGN as int,
                        ad_campaign@,
                    ),
                    TO_BID_TRACK_AD_SPOT as int,
                    ad_spot@,
                ),
                TO_BID_TRACK_CAMPAIGN_BID_INDEX as int,
                le32(index),
            ),
            TO_BID_TRACK_AD_CONFIG as int,
            bid_config_bytes(bid_config),
        ),
        TO_BID_TRACK_SIZE_HELPER as int,
        le32(bytes_in_bloom as u32),
    )
}

/// A new bid track holds what the bid was opened with: reading the header
/// back gives the campaign, the spot, the slot index, the bid's terms
/// exactly as given (each price in its own field) and the size of the
/// filters, and the account keeps its length.
pub proof fn lemma_bid_track_header_reads_back(
    s: Seq<u8>,
    ad_campaign: Pubkey,
    ad_spot: Pubkey,
    index: u32,
    bid_config: BidConfig,
    bytes_in_bloom: usize,
    must_delegate: bool,
)
    requires
        s.len() >= START_FROM_BID_TRACK,
    ensures
        ({
            let h = bid_track_header(s, ad_campaign, ad_spot, index, bid_config, bytes_in_bloom, must_delegate);
            &&& h.len() == s.len()
            &&& read_bid_config(h, TO_BID_TRACK_AD_CONFIG as int) == bid_config
            &&& read_u64(h, TO_BID_TRACK_AD_CONFIG + 12) == bid_config.budget_per_view
            &&& read_u64(h, TO_BID_TRACK_AD_CONFIG + 20) == bid_config.budget_per_click
            &&& read_u32(h, TO_BID_TRACK_CAMPAIGN_BID_INDEX as int) == index
            &&& h.subrange(TO_BID_TRACK_AD_CAMPAIGN as int, TO_BID_TRACK_AD_CAMPAIGN + 32) == ad_campaign@
            &&& h.subrange(TO_BID_TRACK_AD_SPOT as int, TO_BID_TRACK_AD_SPOT + 32) == ad_spot@
            &&& read_u32(h, TO_BID_TRACK_SIZE_HELPER as int) == bytes_in_bloom as u32
            &&& h.subrange(0, 8) == BID_TRACK_DISCRIMINATOR@
            &&& h[8] == 11
            &&& h[9] == (if must_delegate {
                1u8
            } else {
                0u8
            })
            &&& h[10] == h[9]
            &&& forall|i: int|
                (TO_BID_TRACK_TOTAL_VIEWS <= i < TO_BID_TRACK_SIZE_HELPER || START_FROM_BID_TRACK <= i < s.len())
                    ==> #[trigger] h[i] == s[i]
        }),
{
    let flag: u8 = if must_delegate {
        1
    } else {
        0
    };
    lemma_le_lengths(0, index, 0);
    lemma_le_lengths(0, bytes_in_bloom as u32, 0);
    lemma_le_lengths(bid_config.bloom_accuracy, 0, bid_config.budget);
    lemma_le_lengths(bid_config.max_viewers, 0, bid_config.budget_per_view);
    lemma_le_lengths(0, 0, bid_config.budget_per_click);
    let cb = bid_config_bytes(bid_config);
    assert(cb.len() == 28);
    let h0 = splice(s, 0, BID_TRACK_DISCRIMINATOR@ + seq![11u8, flag, flag]);
    let h1 = splice(h0, TO_BID_TRACK_AD_CAMPAIGN as int, ad_campaign@);
    let h2 = splice(h1, TO_BID_TRACK_AD_SPOT as int, ad_spot@);
    let h3 = splice(h2, TO_BID_TRACK_CAMPAIGN_BID_INDEX as int, le32(index));
    let h4 = splice(h3, TO_BID_TRACK_AD_CONFIG as int, cb);
    let h5 = splice(h4, TO_BID_TRACK_SIZE_HELPER as int, le32(bytes_in_bloom as u32));
    lemma_splice_basics(s, 0, BID_TRACK_DISCRIMINATOR@ + seq![11u8, flag, flag]);
    lemma_splice_basics(h0, TO_BID_TRACK_AD_CAMPAIGN as int, ad_campaign@);
    lemma_splice_basics(h1, TO_BID_TRACK_AD_SPOT as int, ad_spot@);
    lemma_splice_basics(h2, TO_BID_TRACK_CAMPAIGN_BID_INDEX as int, le32(index));
    lemma_splice_basics(h3, TO_BID_TRACK_AD_CONFIG as int, cb);
    lemma_splice_basics(h4, TO_BID_TRACK_SIZE_HELPER as int, le32(bytes_in_bloom as u32));
    lemma_splice_disjoint(h4, TO_BID_TRACK_SIZE_HELPER as int, le32(bytes_in_bloom as u32), TO_BID_TRACK_AD_CONFIG as int, 28);
    lemma_splice_disjoint(h4, TO_BID_TRACK_SIZE_HELPER as int, le32(bytes_in_bloom as u32), TO_BID_TRACK_CAMPAIGN_BID_INDEX as int, 4);
    lemma_splice_disjoint(h3, TO_BID_TRACK_AD_CONFIG as int, cb, TO_BID_TRACK_CAMPAIGN_BID_INDEX as int, 4);
    lemma_splice_disjoint(h4, TO_BID_TRACK_SIZE_HELPER as int, le32(bytes_in_bloom as u32), TO_BID_TRACK_AD_SPOT as int, 32);
    lemma_splice_disjoint(h3, TO_BID_TRACK_AD_CONFIG as int, cb, TO_BID_TRACK_AD_SPOT as int, 32);
    lemma_splice_disjoint(h2, TO_BID_TRACK_CAMPAIGN_BID_INDEX as int, le32(index), TO_BID_TRACK_AD_SPOT as int, 32);
    lemma_splice_disjoint(h4, TO_BID_TRACK_SIZE_HELPER as int, le32(bytes_in_bloom as u32), TO_BID_TRACK_AD_CAMPAIGN as int, 32);
    lemma_splice_disjoint(h3, TO_BID_TRACK_AD_CONFIG as int, cb, TO_BID_TRACK_AD_CAMPAIGN as int, 32);
    lemma_splice_disjoint(h2, TO_BID_TRACK_CAMPAIGN_BID_INDEX as int, le32(index), TO_BID_TRACK_AD_CAMPAIGN as int, 32);
    lemma_splice_disjoint(h1, TO_BID_TRACK_AD_SPOT as int, ad_spot@, TO_BID_TRACK_AD_CAMPAIGN as int, 32);
    lemma_bid_config_roundtrip(bid_config, h5, TO_BID_TRACK_AD_CONFIG as int);
    let hd = BID_TRACK_DISCRIMINATOR@ + seq![11u8, flag, flag];
    let c0 = TO_BID_TRACK_TOTAL_VIEWS as int;
    let n0 = TO_BID_TRACK_SIZE_HELPER - TO_BID_TRACK_TOTAL_VIEWS;
    let c1 = START_FROM_BID_TRACK as int;
    let n1 = s.len() - START_FROM_BID_TRACK;
    lemma_splice_disjoint(s, 0, hd, c0, n0);
    lemma_splice_disjoint(s, 0, hd, c1, n1);
    lemma_splice_disjoint(h0, TO_BID_TRACK_AD_CAMPAIGN as int, ad_campaign@, c0, n0);
    lemma_splice_disjoint(h0, TO_BID_TRACK_AD_CAMPAIGN as int, ad_campaign@, c1, n1);
    lemma_splice_disjoint(h0, TO_BID_TRACK_AD_CAMPAIGN as int, ad_campaign@, 0, 11);
    lemma_splice_disjoint(h1, TO_BID_TRACK_AD_SPOT as int, ad_spot@, c0, n0);
    lemma_splice_disjoint(h1, TO_BID_TRACK_AD_SPOT as int, ad_spot@, c1, n1);
    lemma_splice_disjoint(h1, TO_BID_TRACK_AD_SPOT as int, ad_spot@, 0, 11);
    lemma_splice_disjoint(h2, TO_BID_TRACK_CAMPAIGN_BID_INDEX as int, le32(index), c0, n0);
    lemma_splice_disjoint(h2, TO_BID_TRACK_CAMPAIGN_BID_INDEX as int, le32(index), c1, n1);
    lemma_splice_disjoint(h2, TO_BID_TRACK_CAMPAIGN_BID_INDEX as int, le32(index), 0, 11);
    lemma_splice_disjoint(h3, TO_BID_TRACK_AD_CONFIG as int, cb, c0, n0);
    lemma_splice_disjoint(h3, TO_BID_TRACK_AD_CONFIG as int, cb, c1, n1);
    lemma_splice_disjoint(h3, TO_BID_TRACK_AD_CONFIG as int, cb, 0, 11);
    lemma_splice_disjoint(h4, TO_BID_TRACK_SIZE_HELPER as int, le32(bytes_in_bloom as u32), c0, n0);
    lemma_splice_disjoint(h4, TO_BID_TRACK_SIZE_HELPER as int, le32(bytes_in_bloom as u32), c1, n1);
    lemma_splice_disjoint(h4, TO_BID_TRACK_SIZE_HELPER as int, le32(bytes_in_bloom as u32), 0, 11);
    assert(h5.subrange(0, 11) == hd);
    assert(h5.subrange(0, 8) =~= hd.subrange(0, 8));
    assert(hd.subrange(0, 8) =~= BID_TRACK_DISCRIMINATOR@);
    assert(h5[8] == hd[8] && h5[9] == hd[9] && h5[10] == hd[10]) by {
        assert(h5[8] == h5.subrange(0, 11)[8]);
        assert(h5[9] == h5.subrange(0, 11)[9]);
        assert(h5[10] == h5.subrange(0, 11)[10]);
    }
    assert(h5.subrange(c0, c0 + n0) == s.subrange(c0, c0 + n0));
    assert(h5.subrange(c1, c1 + n1) == s.subrange(c1, c1 + n1));
    assert forall|i: int|
        (TO_BID_TRACK_TOTAL_VIEWS <= i < TO_BID_TRACK_SIZE_HELPER || START_FROM_BID_TRACK <= i < s.len())
            implies #[trigger] h5[i] == s[i] by {
        if i < TO_BID_TRACK_SIZE_HELPER {
            assert(h5[i] == h5.subrange(c0, c0 + n0)[i - c0]);
            assert(s[i] == s.subrange(c0, c0 + n0)[i - c0]);
        } else {
            assert(h5[i] == h5.subrange(c1, c1 + n1)[i - c1]);
            assert(s[i] == s.subrange(c1, c1 + n1)[i - c1]);
        }
    }
    assert(h5.subrange(TO_BID_TRACK_AD_CONFIG + 12, TO_BID_TRACK_AD_CONFIG + 20) =~= h5.subrange(
        TO_BID_TRACK_AD_CONFIG as int,
        TO_BID_TRACK_AD_CONFIG + 28,
    ).subrange(12, 20));
    assert(h5.subrange(TO_BID_TRACK_AD_CONFIG + 20, TO_BID_TRACK_AD_CONFIG + 28) =~= h5.subrange(
        TO_BID_TRACK_AD_CONFIG as int,
        TO_BID_TRACK_AD_CONFIG + 28,
    ).subrange(20, 28));
}

/// Writes a new bid track's header: discriminator, class, delegation flags
/// (set when the filters fit in one step), campaign, spot, slot index, bid
/// terms and the size of the filters.
pub fn write_bid_track_header(
    bid_track: &mut Vec<u8>,
    ad_campaign: &Pubkey,
    ad_spot: &Pubkey,
    index: u32,
    bid_config: &BidConfig,
    bytes_in_bloom: usize,
    must_delegate: bool,
)
    requires
        old(bid_track)@.len() >= START_FROM_BID_TRACK,
    ensures
        final(bid_track)@ == bid_track_header(
            old(bid_track)@,
            *ad_campaign,
            *ad_spot,
            index,
            *bid_config,
            bytes_in_bloom,
            must_delegate,
        ),
        read_bid_config(final(bid_track)@, TO_BID_TRACK_AD_CONFIG as int) == *bid_config,
        read_u32(final(bid_track)@, TO_BID_TRACK_CAMPAIGN_BID_INDEX as int) == index,
{
    proof {
        lemma_bid_track_header_reads_back(
            old(bid_track)@,
            *ad_campaign,
            *ad_spot,
            index,
            *bid_config,
            bytes_in_bloom,
            must_delegate,
        );
    }
    let flag: u8 = if must_delegate {
        1
    } else {
        0
    };
    let mut head: Vec<u8> = Vec::new();
    let mut i: usize = 0;
    while i < 8
        invariant
            i <= 8,
            head@ =~= BID_TRACK_DISCRIMINATOR@.take(i as int),
        decreases 8 - i,
    {
        head.push(BID_TRACK_DISCRIMINATOR[i]);
        i = i + 1;
    }
    head.push(11);
    head.push(flag);
    head.push(flag);
    assert(head@ =~= BID_TRACK_DISCRIMINATOR@ + seq![11u8, flag, flag]);
    write_bytes(bid_track, 0, head.as_slice());
    write_bytes(bid_track, TO_BID_TRACK_AD_CAMPAIGN, ad_campaign.as_slice());
    write_bytes(bid_track, TO_BID_TRACK_AD_SPOT, ad_spot.as_slice());
    put_u32(bid_track, TO_BID_TRACK_CAMPAIGN_BID_INDEX, index);
    let cfg = bid_config_to_bytes(bid_config);
    write_bytes(bid_track, TO_BID_TRACK_AD_CONFIG, cfg.as_slice());
    #[verifier::truncate]
    let size = bytes_in_bloom as u32;
    put_u32(bid_track, TO_BID_TRACK_SIZE_HELPER, size);
}

/// The messenger data after its header and its single pending update are
/// written, in the order the program writes them: the update list goes from
/// byte 26 on, over whatever of the header lies there.
pub open spec fn messenger_record(
    s: Seq<u8>,
    store_hash: u64,
    creator: Pubkey,
    state: u8,
    slot: u64,
    update: RollupUpdates,
) -> Seq<u8> {
    splice(
        splice(
            splice(
                splice(
                    splice(
                        splice(s, 0, ROLLUP_MESSENGER_DISCRIMINATOR@ + seq![13u8]),
                        MESSENGER_TO_STORE_HASH as int,
                        le64(store_hash),
                    ),
                    MESSENGER_TO_CREATOR as int,
                    creator@,
                ),
                MESSENGER_TO_STATE as int,
                seq![state],
            ),
            MESSENGER_TO_SLOT as int,
            le64(slot),
        ),
        MESSENGER_TO_UPDATES_WRITE as int,
        single_update_list_bytes(update),
    )
}

/// Size an update's list takes in a messenger record.
pub open spec fn update_list_len(update: RollupUpdates) -> int {
    4 + update_bytes(update).len() as int
}

/// Writes a new messenger's record: discriminator, class, store, creator,
/// state, slot, then the list holding `update`.
pub fn write_messenger_record(
    messenger: &mut Vec<u8>,
    store_hash: u64,
    creator: &Pubkey,
    state: u8,
    slot: u64,
    update: &RollupUpdates,
)
    requires
        old(messenger)@.len() >= MESSENGER_TO_SLOT + 8,
        MESSENGER_TO_UPDATES_WRITE + update_list_len(*update) <= old(messenger)@.len(),
    ensures
        final(messenger)@ == messenger_record(old(messenger)@, store_hash, *creator, state, slot, *update),
{
    let mut head: Vec<u8> = Vec::new();
    let mut i: usize = 0;
    while i < 8
        invariant
            i <= 8,
            head@ =~= ROLLUP_MESSENGER_DISCRIMINATOR@.take(i as int),
        decreases 8 - i,
    {
        head.push(ROLLUP_MESSENGER_DISCRIMINATOR[i]);
        i = i + 1;
    }
    head.push(13);
    assert(head@ =~= ROLLUP_MESSENGER_DISCRIMINATOR@ + seq![13u8]);
    write_bytes(messenger, 0, head.as_slice());
    put_u64(messenger, MESSENGER_TO_STORE_HASH, store_hash);
    write_bytes(messenger, MESSENGER_TO_CREATOR, creator.as_slice());
    let ghost before_state = messenger@;
    messenger.set(MESSENGER_TO_STATE, state);
    assert(messenger@ =~= splice(before_state, MESSENGER_TO_STATE as int, seq![state]));
    put_u64(messenger, MESSENGER_TO_SLOT, slot);
    let list = single_update_list_to_bytes(update);
    proof {
        lemma_le_lengths(0, 1, 0);
    }
    write_bytes(messenger, MESSENGER_TO_UPDATES_WRITE, list.as_slice());
}

/// The state a bid's slot moves to when its earnings are to be cashed out:
/// a paused or ready bid may; any other may not.
pub open spec fn cashout_state(state: u8) -> Option<u8> {
    if state == AD_CAMPAIGN_BID_STATE_PAUSED {
        Some(AD_CAMPAIGN_BID_STATE_CASHINGOUT_PAUSED)
    } else if state == AD_CAMPAIGN_BID_STATE_READY {
        Some(AD_CAMPAIGN_BID_STATE_CASHINGOUT)
    } else {
        None
    }
}

/// The state a bid's slot moves to when the bid is to be deleted: a ready
/// bid becomes deleting, a paused one may not be deleted, and any other
/// becomes deleting-while-paused.
pub open spec fn delete_state(state: u8) -> Option<u8> {
    if state == AD_CAMPAIGN_BID_STATE_READY {
        Some(AD_CAMPAIGN_BID_STATE_DELETING)
    } else if state != AD_CAMPAIGN_BID_STATE_PAUSED {
        Some(AD_CAMPAIGN_BID_STATE_DELETING_PAUSED)
    } else {
        None
    }
}

/// A change of a bid's slot, as it is handed to the rollup.
#[derive(Debug, Clone, Copy, PartialEq, Eq, Structural)]
pub struct BidChange {
    /// The bid's slot.
    pub index: u32,
    /// The campaign's change counter for this change.
    pub changes_count: u64,
}

/// Moves the slot of the bid that `bid_track` records to `next(state)`;
/// reports the slot and the campaign's change counter plus one.
fn move_bid_slot(bid_track: &Vec<u8>, campaign: &mut Vec<u8>, deleting: bool) -> (r: Result<BidChange, ProgramError>)
    requires
        settle_request_fits(bid_track@, old(campaign)@, Seq::<u8>::empty(), deleting, false),
    ensures
        ({
            let index = read_u32(bid_track@, TO_BID_TRACK_CAMPAIGN_BID_INDEX as int);
            let pos = START_FROM_AD_CAMPAIGN + index;
            let next = if deleting {
                delete_state(old(campaign)@[pos])
            } else {
                cashout_state(old(campaign)@[pos])
            };
            match next {
                Some(n) => r == Ok::<BidChange, ProgramError>(
                    BidChange {
                        index,
                        changes_count: (read_u64(old(campaign)@, TO_AD_CAMPAIGN_CHANGE_COUNT as int) + 1) as u64,
                    },
                ) && final(campaign)@ == old(campaign)@.update(pos, n),
                None => r == Err::<BidChange, ProgramError>(ProgramError::InvalidAccountData)
                    && final(campaign)@ == old(campaign)@,
            }
        }),
{
    let _len = campaign.len();
    let index = get_u32(bid_track, TO_BID_TRACK_CAMPAIGN_BID_INDEX);
    let pos = START_FROM_AD_CAMPAIGN + index as usize;
    let state = campaign[pos];
    let next: u8 = if deleting {
        if state == AD_CAMPAIGN_BID_STATE_READY {
            AD_CAMPAIGN_BID_STATE_DELETING
        } else if state != AD_CAMPAIGN_BID_STATE_PAUSED {
            AD_CAMPAIGN_BID_STATE_DELETING_PAUSED
        } else {
            return Err(ProgramError::InvalidAccountData);
        }
    } else {
        if state == AD_CAMPAIGN_BID_STATE_PAUSED {
            AD_CAMPAIGN_BID_STATE_CASHINGOUT_PAUSED
        } else if state == AD_CAMPAIGN_BID_STATE_READY {
            AD_CAMPAIGN_BID_STATE_CASHINGOUT
        } else {
            return Err(ProgramError::InvalidAccountData);
        }
    };
    let ghost before = campaign@;
    campaign.set(pos, next);
    proof {
        lemma_splice_disjoint(
            before,
            pos as int,
            seq![next],
            TO_AD_CAMPAIGN_CHANGE_COUNT as int,
            8,
        );
        assert(campaign@ =~= splice(before, pos as int, seq![next]));
    }
    let changes_count = get_u64(campaign, TO_AD_CAMPAIGN_CHANGE_COUNT) + 1;
    Ok(BidChange { index, changes_count })
}

/// What a request to cash out or delete a bid does, when its slot may
/// move (see [`cashout_state`] and [`delete_state`]): the slot moves, and a
/// new messenger records, in the settling state and for slot 0 of the
/// rollup, the update it carries: a cash-out of what the bid earned, or a
/// deletion owing nothing yet, for this slot, the campaign's bid-track
/// account and the campaign's change counter plus one.  A slot that may not
/// move is `InvalidAccountData` and nothing changes.
pub open spec fn settle_request(
    store_hash: u64,
    creator: Pubkey,
    bid_track: Seq<u8>,
    campaign0: Seq<u8>,
    campaign1: Seq<u8>,
    tracks: Pubkey,
    messenger0: Seq<u8>,
    messenger1: Seq<u8>,
    r: Result<BidChange, ProgramError>,
    deleting: bool,
) -> bool {
    let index = read_u32(bid_track, TO_BID_TRACK_CAMPAIGN_BID_INDEX as int);
    let pos = START_FROM_AD_CAMPAIGN + index;
    let changes_count = (read_u64(campaign0, TO_AD_CAMPAIGN_CHANGE_COUNT as int) + 1) as u64;
    let next = if deleting {
        delete_state(campaign0[pos])
    } else {
        cashout_state(campaign0[pos])
    };
    let update = if deleting {
        RollupUpdates::DeletingBid { account: tracks, changes_count, index, must_pay_user: 0 }
    } else {
        RollupUpdates::CashoutBid { account: tracks, changes_count, index, earned: 0 }
    };
    match next {
        Some(n) => {
            &&& r == Ok::<BidChange, ProgramError>(BidChange { index, changes_count })
            &&& campaign1 == campaign0.update(pos, n)
            &&& messenger1 == messenger_record(
                messenger0,
                store_hash,
                creator,
                MESSENGER_DELEGATED_CASHOUT,
                0,
                update,
            )
        },
        None => {
            &&& r == Err::<BidChange, ProgramError>(ProgramError::InvalidAccountData)
            &&& campaign1 == campaign0
            &&& messenger1 == messenger0
        },
    }
}

/// What a cash-out or deletion request needs, that is, the inputs on which
/// the program does not fail: the slot is inside the campaign; when the
/// slot may move, the change counter is there and does not overflow, and
/// (with `messenger_needed`) the new messenger has room for its record.
pub open spec fn settle_request_fits(
    bid_track: Seq<u8>,
    campaign: Seq<u8>,
    messenger: Seq<u8>,
    deleting: bool,
    messenger_needed: bool,
) -> bool {
    let index = read_u32(bid_track, TO_BID_TRACK_CAMPAIGN_BID_INDEX as int);
    let pos = START_FROM_AD_CAMPAIGN + index;
    &&& bid_track.len() >= TO_BID_TRACK_CAMPAIGN_BID_INDEX + 4
    &&& pos < campaign.len()
    &&& (if deleting {
        delete_state(campaign[pos])
    } else {
        cashout_state(campaign[pos])
    }) is Some ==> {
        &&& campaign.len() >= TO_AD_CAMPAIGN_CHANGE_COUNT + 8
        &&& read_u64(campaign, TO_AD_CAMPAIGN_CHANGE_COUNT as int) < u64::MAX
        &&& messenger_needed ==> messenger.len() >= MESSENGER_TO_UPDATES_WRITE + 4 + CASHOUT_BID_SIZE
    }
}

/// Whether a cash-out (or, with `deleting`, a deletion) request stays on
/// the inputs the program handles (see [`settle_request_fits`]); on the
/// others the program fails outright.
pub fn request_fits(bid_track: &Vec<u8>, ad_campaign: &Vec<u8>, bid_messenger: &Vec<u8>, deleting: bool) -> (ok:
    bool)
    ensures
        ok == settle_request_fits(bid_track@, ad_campaign@, bid_messenger@, deleting, true),
{
    if bid_track.len() < TO_BID_TRACK_CAMPAIGN_BID_INDEX + 4 {
        return false;
    }
    let index = get_u32(bid_track, TO_BID_TRACK_CAMPAIGN_BID_INDEX);
    let pos: u64 = START_FROM_AD_CAMPAIGN as u64 + index as u64;
    if pos >= ad_campaign.len() as u64 {
        return false;
    }
    let state = ad_campaign[pos as usize];
    let moves = if deleting {
        state != AD_CAMPAIGN_BID_STATE_PAUSED
    } else {
        state == AD_CAMPAIGN_BID_STATE_PAUSED || state == AD_CAMPAIGN_BID_STATE_READY
    };
    if !moves {
        return true;
    }
    ad_campaign.len() >= TO_AD_CAMPAIGN_CHANGE_COUNT + 8 && get_u64(ad_campaign, TO_AD_CAMPAIGN_CHANGE_COUNT)
        < u64::MAX && bid_messenger.len() >= MESSENGER_TO_UPDATES_WRITE + 4 + CASHOUT_BID_SIZE
}

fn request_settlement(
    store: &Store,
    creator: &Pubkey,
    bid_track: &Vec<u8>,
    ad_campaign: &mut Vec<u8>,
    ad_campaign_bid_tracks: &Pubkey,
    bid_messenger: &mut Vec<u8>,
    deleting: bool,
) -> (r: Result<BidChange, ProgramError>)
    requires
        settle_request_fits(bid_track@, old(ad_campaign)@, old(bid_messenger)@, deleting, true),
    ensures
        settle_request(
            store.store_hash,
            *creator,
            bid_track@,
            old(ad_campaign)@,
            final(ad_campaign)@,
            *ad_campaign_bid_tracks,
            old(bid_messenger)@,
            final(bid_messenger)@,
            r,
            deleting,
        ),
{
    let change = match move_bid_slot(bid_track, ad_campaign, deleting) {
        Ok(c) => c,
        Err(e) => {
            return Err(e);
        },
    };
    let update = if deleting {
        RollupUpdates::DeletingBid {
            account: *ad_campaign_bid_tracks,
            changes_count: change.changes_count,
            index: change.index,
            must_pay_user: 0,
        }
    } else {
        RollupUpdates::CashoutBid {
            account: *ad_campaign_bid_tracks,
            changes_count: change.changes_count,
            index: change.index,
            earned: 0,
        }
    };
    proof {
        lemma_update_bytes_shape(update);
    }
    write_messenger_record(bid_messenger, store.store_hash, creator, MESSENGER_DELEGATED_CASHOUT, 0, &update);
    Ok(change)
}

/// A request to cash out a bid's earnings: the bid's slot (read from its
/// track) moves from ready to cashing out, or from paused to cashing out
/// while paused (any other state: `InvalidAccountData`, nothing changes),
/// and the new messenger records the cash-out for the rollup (see
/// [`settle_request`]).  Reports the slot and the campaign's change counter
/// plus one.
pub fn cashout_earnings(
    store: &Store,
    creator: &Pubkey,
    bid_track: &Vec<u8>,
    ad_campaign: &mut Vec<u8>,
    ad_campaign_bid_tracks: &Pubkey,
    bid_messenger: &mut Vec<u8>,
) -> (r: Result<BidChange, ProgramError>)
    requires
        settle_request_fits(bid_track@, old(ad_campaign)@, old(bid_messenger)@, false, true),
    ensures
        settle_request(
            store.store_hash,
            *creator,
            bid_track@,
            old(ad_campaign)@,
            final(ad_campaign)@,
            *ad_campaign_bid_tracks,
            old(bid_messenger)@,
            final(bid_messenger)@,
            r,
            false,
        ),
{
    request_settlement(store, creator, bid_track, ad_campaign, ad_campaign_bid_tracks, bid_messenger, false)
}

/// A request to delete a bid: a ready bid's slot becomes deleting, a paused
/// bid is `InvalidAccountData` (nothing changes), and a slot in any other
/// state becomes deleting-while-paused; the new messenger records the
/// deletion for the rollup (see [`settle_request`]).  Reports the slot and
/// the campaign's change counter plus one.
pub fn delete_bid(
    store: &Store,
    creator: &Pubkey,
    bid_track: &Vec<u8>,
    ad_campaign: &mut Vec<u8>,
    ad_campaign_bid_tracks: &Pubkey,
    bid_messenger: &mut Vec<u8>,
) -> (r: Result<BidChange, ProgramError>)
    requires
        settle_request_fits(bid_track@, old(ad_campaign)@, old(bid_messenger)@, true, true),
    ensures
        settle_request(
            store.store_hash,
            *creator,
            bid_track@,
            old(ad_campaign)@,
            final(ad_campaign)@,
            *ad_campaign_bid_tracks,
            old(bid_messenger)@,
            final(bid_messenger)@,
            r,
            true,
        ),
{
    request_settlement(store, creator, bid_track, ad_campaign, ad_campaign_bid_tracks, bid_messenger, true)
}

/// The change counter a settling messenger carries, when its record is in
/// the settling state, decodes strictly to the expected kind of update
/// (a deletion when `deleting`, a cash-out otherwise) and names this bid's
/// slot and this campaign's bid-track account.
pub open spec fn settle_update(messenger: Seq<u8>, deleting: bool, bid_index: u32, tracks_key: Pubkey) -> Option<u64> {
    if messenger[MESSENGER_TO_STATE as int] != MESSENGER_DELEGATED_CASHOUT {
        None
    } else {
        match spec_decode_update(
            messenger.subrange(
                MESSENGER_TO_PAYLOAD as int,
                MESSENGER_TO_PAYLOAD + MESSAGE_PAYLOAD_SIZE,
            ),
        ) {
            Some(RollupUpdates::CashoutBid { account, changes_count, index, .. }) => if !deleting
                && index == bid_index && account@ == tracks_key@ {
                Some(changes_count)
            } else {
                None
            },
            Some(RollupUpdates::DeletingBid { account, changes_count, index, .. }) => if deleting
                && index == bid_index && account@ == tracks_key@ {
                Some(changes_count)
            } else {
                None
            },
            _ => None,
        }
    }
}

/// The error a settlement reports for a messenger whose update is not the
/// expected one: a record not in the settling state is `InvalidAccountData`,
/// bytes that do not decode are `BorshIoError`, and a decoded update of the
/// wrong kind or for another bid is `InvalidAccountData`.
pub open spec fn settle_update_error(messenger: Seq<u8>) -> ProgramError {
    if messenger[MESSENGER_TO_STATE as int] == MESSENGER_DELEGATED_CASHOUT && spec_decode_update(
        messenger.subrange(MESSENGER_TO_PAYLOAD as int, MESSENGER_TO_PAYLOAD + MESSAGE_PAYLOAD_SIZE),
    ) is None {
        ProgramError::BorshIoError
    } else {
        ProgramError::InvalidAccountData
    }
}

/// Whether a bid's slot is in a state that settles: cashing out (when not
/// deleting) or one of the deleting states.
pub open spec fn settle_state_ok(state: u8, deleting: bool) -> bool {
    if deleting {
        state == AD_CAMPAIGN_BID_STATE_DELETING || state == AD_CAMPAIGN_BID_STATE_DELETING_PAUSED
    } else {
        state == AD_CAMPAIGN_BID_STATE_CASHINGOUT || state == AD_CAMPAIGN_BID_STATE_CASHINGOUT_PAUSED
    }
}

/// What a bid has earned since its last settlement: its views and clicks at
/// their prices.
pub open spec fn bid_earned(bid_track: Seq<u8>) -> int {
    let cfg = read_bid_config(bid_track, TO_BID_TRACK_AD_CONFIG as int);
    read_u64(bid_track, TO_BID_TRACK_TOTAL_VIEWS as int) * cfg.budget_per_view + read_u64(
        bid_track,
        TO_BID_TRACK_TOTAL_CLICKS as int,
    ) * cfg.budget_per_click
}

/// The budget left once `earned` is taken from `budget` (none when it does not cover it).
pub open spec fn budget_after(budget: u64, earned: int) -> u64 {
    if earned > budget {
        0
    } else {
        (budget - earned) as u64
    }
}

/// Offset of a bid's slot in the campaign's bid-track account.
pub open spec fn track_slot(index: u32) -> int {
    START_FROM_AD_CAMPAIGN_BID_TRACKS + SPACE_IN_CAMPAIGN_BID_TRACK * index
}

/// The bid track after settling: counters cleared and the budget reduced.
pub open spec fn settled_bid_track(bid_track: Seq<u8>) -> Seq<u8> {
    let cfg = read_bid_config(bid_track, TO_BID_TRACK_AD_CONFIG as int);
    let cfg2 = BidConfig { budget: budget_after(cfg.budget, bid_earned(bid_track)), ..cfg };
    splice(
        splice(
            splice(bid_track, TO_BID_TRACK_TOTAL_VIEWS as int, zeros(8)),
            TO_BID_TRACK_TOTAL_CLICKS as int,
            zeros(8),
        ),
        TO_BID_TRACK_AD_CONFIG as int,
        bid_config_bytes(cfg2),
    )
}

/// The campaign's bid-track account after settling: the change counter, the
/// bid's budget flag (cleared when the budget ran out) and the campaign's
/// earnings (reduced by what was settled, stored big-endian).
pub open spec fn settled_tracks(tracks: Seq<u8>, bid_track: Seq<u8>, changes_count: u64) -> Seq<u8> {
    let index = read_u32(bid_track, TO_BID_TRACK_CAMPAIGN_BID_INDEX as int);
    let cfg = read_bid_config(bid_track, TO_BID_TRACK_AD_CONFIG as int);
    let earned = bid_earned(bid_track);
    let t1 = splice(tracks, TO_AD_CAMPAIGN_BID_TRACK_CHANGE_COUNT as int, le64(changes_count));
    let t2 = if budget_after(cfg.budget, earned) == 0 {
        t1.update(track_slot(index) + 1, 0)
    } else {
        t1
    };
    splice(
        t2,
        TO_AD_CAMPAIGN_BID_EARNED as int,
        be64((read_u64(tracks, TO_AD_CAMPAIGN_BID_EARNED as int) - earned) as u64),
    )
}

/// What settling a bid needs of its inputs, that is, the inputs on which
/// the program does not fail: each field is inside its account when it is
/// read or written, and the earnings, the budget and the balances on the
/// way neither overflow nor go below zero.
pub open spec fn settle_requires(
    bt0: AccountInfo,
    msg0: AccountInfo,
    campaign: Seq<u8>,
    tr0: AccountInfo,
    deleting: bool,
) -> bool {
    let index = read_u32(bt0.data@, TO_BID_TRACK_CAMPAIGN_BID_INDEX as int);
    let cfg = read_bid_config(bt0.data@, TO_BID_TRACK_AD_CONFIG as int);
    let earned = bid_earned(bt0.data@);
    &&& bt0.data@.len() >= TO_BID_TRACK_CAMPAIGN_BID_INDEX + 4
    &&& msg0.data@.len() > MESSENGER_TO_STATE
    &&& msg0.data@[MESSENGER_TO_STATE as int] == MESSENGER_DELEGATED_CASHOUT ==> msg0.data@.len()
        >= MESSENGER_TO_PAYLOAD + MESSAGE_PAYLOAD_SIZE
    &&& settle_update(msg0.data@, deleting, index, tr0.key) is Some ==> {
        &&& START_FROM_AD_CAMPAIGN + index < campaign.len()
        &&& settle_state_ok(campaign[START_FROM_AD_CAMPAIGN + index], deleting) ==> {
            &&& bt0.data@.len() >= TO_BID_TRACK_TOTAL_CLICKS + 8
            &&& read_u64(bt0.data@, TO_BID_TRACK_TOTAL_VIEWS as int) * cfg.budget_per_view <= u64::MAX
            &&& read_u64(bt0.data@, TO_BID_TRACK_TOTAL_CLICKS as int) * cfg.budget_per_click <= u64::MAX
            &&& earned <= u64::MAX
            &&& track_slot(index) < tr0.data@.len()
            &&& tr0.data@[track_slot(index)] == 1 ==> {
                &&& budget_after(cfg.budget, earned) == 0 ==> track_slot(index) + 1 < tr0.data@.len()
                &&& earned <= read_u64(tr0.data@, TO_AD_CAMPAIGN_BID_EARNED as int)
                &&& earned <= bt0.lamports
                &&& msg0.lamports + earned <= u64::MAX
            }
        }
    }
}

/// What settling a bid does: the result and the accounts afterwards.
pub open spec fn settle_ensures(
    bt0: AccountInfo,
    msg0: AccountInfo,
    campaign: Seq<u8>,
    tr0: AccountInfo,
    bt1: AccountInfo,
    msg1: AccountInfo,
    tr1: AccountInfo,
    r: Result<u64, ProgramError>,
    deleting: bool,
) -> bool {
            let bt = bt0.data@;
            let index = read_u32(bt, TO_BID_TRACK_CAMPAIGN_BID_INDEX as int);
            let update = settle_update(msg0.data@, deleting, index, tr0.key);
            let ok = update is Some && settle_state_ok(campaign[START_FROM_AD_CAMPAIGN + index], deleting)
                && tr0.data@[track_slot(index)] == 1;
            &&& r is Ok <==> ok
            &&& update is None ==> r == Err::<u64, ProgramError>(settle_update_error(msg0.data@))
            &&& !ok && update is Some ==> r == Err::<u64, ProgramError>(ProgramError::InvalidAccountData)
            &&& r is Err ==> bt1 == bt0 && msg1 == msg0 && tr1 == tr0
            &&& r is Ok ==> {
                let earned = bid_earned(bt);
                &&& r == Ok::<u64, ProgramError>(earned as u64)
                &&& bt1.lamports + msg1.lamports == bt0.lamports + msg0.lamports
                &&& bt1.data@ == settled_bid_track(bt)
                &&& bt1.lamports == bt0.lamports - earned
                &&& bt1.key == bt0.key
                &&& msg1.data@ == splice(
                    msg0.data@.update(MESSENGER_TO_STATE as int, MESSENGER_PROCESSED_CASHOUT),
                    MESSENGER_TO_CASHOUT_EARNED as int,
                    le64(earned as u64),
                )
                &&& msg1.lamports == msg0.lamports + earned
                &&& msg1.key == msg0.key
                &&& tr1.data@ == settled_tracks(
                    tr0.data@,
                    bt,
                    update->0,
                )
                &&& tr1.lamports == tr0.lamports
                &&& tr1.key == tr0.key
            }
        }

/// Settles what a bid earned since the last settlement, on the rollup, for a
/// cash-out (`deleting` false) or a deletion: checks the messenger's pending
/// update and the bid's slot, takes the earnings from the bid's budget,
/// clears its counters, takes them from the campaign's earnings and moves
/// them, in lamports, from the bid track to the messenger, which records the
/// amount.  On any error nothing changes.
fn settle_bid(
    bid_track: &mut AccountInfo,
    bid_messenger: &mut AccountInfo,
    ad_campaign: &Vec<u8>,
    ad_campaign_bid_tracks: &mut AccountInfo,
    deleting: bool,
) -> (r: Result<u64, ProgramError>)
    requires
        settle_requires(*old(bid_track), *old(bid_messenger), ad_campaign@, *old(ad_campaign_bid_tracks), deleting),
    ensures
        settle_ensures(
            *old(bid_track),
            *old(bid_messenger),
            ad_campaign@,
            *old(ad_campaign_bid_tracks),
            *final(bid_track),
            *final(bid_messenger),
            *final(ad_campaign_bid_tracks),
            r,
            deleting,
        ),
{
    let _l1 = bid_track.data.len();
    let _l2 = bid_messenger.data.len();
    let _l3 = ad_campaign_bid_tracks.data.len();
    let _l4 = ad_campaign.len();
    let bid_index = get_u32(&bid_track.data, TO_BID_TRACK_CAMPAIGN_BID_INDEX);
    if bid_messenger.data[MESSENGER_TO_STATE] != MESSENGER_DELEGATED_CASHOUT {
        return Err(ProgramError::InvalidAccountData);
    }
    let needs_to_update = match decode_update(&bid_messenger.data, MESSENGER_TO_PAYLOAD, MESSAGE_PAYLOAD_SIZE) {
        Some(u) => u,
        None => {
            return Err(ProgramError::BorshIoError);
        },
    };
    let changes_count = match needs_to_update {
        RollupUpdates::CashoutBid { account, changes_count, index, .. } => {
            if deleting || bid_index != index || !keys_equal(&account, &ad_campaign_bid_tracks.key) {
                return Err(ProgramError::InvalidAccountData);
            }
            changes_count
        },
        RollupUpdates::DeletingBid { account, changes_count, index, .. } => {
            if !deleting || bid_index != index || !keys_equal(&account, &ad_campaign_bid_tracks.key) {
                return Err(ProgramError::InvalidAccountData);
            }
            changes_count
        },
        _ => {
            return Err(ProgramError::InvalidAccountData);
        },
    };
    let pos = START_FROM_AD_CAMPAIGN + bid_index as usize;
    let state = ad_campaign[pos];
    let state_ok = if deleting {
        state == AD_CAMPAIGN_BID_STATE_DELETING || state == AD_CAMPAIGN_BID_STATE_DELETING_PAUSED
    } else {
        state == AD_CAMPAIGN_BID_STATE_CASHINGOUT || state == AD_CAMPAIGN_BID_STATE_CASHINGOUT_PAUSED
    };
    if !state_ok {
        return Err(ProgramError::InvalidAccountData);
    }
    let cleaning_views = get_u64(&bid_track.data, TO_BID_TRACK_TOTAL_VIEWS);
    let cleaning_click = get_u64(&bid_track.data, TO_BID_TRACK_TOTAL_CLICKS);
    let mut bid_config = bid_config_from_bytes(&bid_track.data, TO_BID_TRACK_AD_CONFIG);
    let spent_per_view = cleaning_views * bid_config.budget_per_view;
    let spent_per_click = cleaning_click * bid_config.budget_per_click;
    let should_have_earned = spent_per_view + spent_per_click;
    let bid_pos = START_FROM_AD_CAMPAIGN_BID_TRACKS + SPACE_IN_CAMPAIGN_BID_TRACK * bid_index as usize;
    if ad_campaign_bid_tracks.data[bid_pos] != 1 {
        return Err(ProgramError::InvalidAccountData);
    }
    if should_have_earned > bid_config.budget {
        bid_config.budget = 0;
    } else {
        bid_config.budget = bid_config.budget - should_have_earned;
    }
    let lost_all_budget = bid_config.budget == 0;
    let ghost bt0 = bid_track.data@;
    write_zeros(&mut bid_track.data, TO_BID_TRACK_TOTAL_VIEWS, 8);
    write_zeros(&mut bid_track.data, TO_BID_TRACK_TOTAL_CLICKS, 8);
    let cfg_bytes = bid_config_to_bytes(&bid_config);
    write_bytes(&mut bid_track.data, TO_BID_TRACK_AD_CONFIG, cfg_bytes.as_slice());
    let ghost t0 = ad_campaign_bid_tracks.data@;
    let total_earned = get_u64(&ad_campaign_bid_tracks.data, TO_AD_CAMPAIGN_BID_EARNED);
    put_u64(&mut ad_campaign_bid_tracks.data, TO_AD_CAMPAIGN_BID_TRACK_CHANGE_COUNT, changes_count);
    if lost_all_budget {
        ad_campaign_bid_tracks.data.set(bid_pos + 1, 0);
    }
    let remaning_earned_cash = total_earned - should_have_earned;
    put_u64_be(&mut ad_campaign_bid_tracks.data, TO_AD_CAMPAIGN_BID_EARNED, remaning_earned_cash);
    let _ = pay_to_user(bid_track, bid_messenger, should_have_earned);
    let ghost m0 = bid_messenger.data@;
    bid_messenger.data.set(MESSENGER_TO_STATE, MESSENGER_PROCESSED_CASHOUT);
    put_u64(&mut bid_messenger.data, MESSENGER_TO_CASHOUT_EARNED, should_have_earned);
    proof {
        assert(spec_decode_update(
            m0.subrange(MESSENGER_TO_PAYLOAD as int, MESSENGER_TO_PAYLOAD + MESSAGE_PAYLOAD_SIZE),
        ) == Some(needs_to_update));
        assert(bid_config == BidConfig {
            budget: budget_after(read_bid_config(bt0, TO_BID_TRACK_AD_CONFIG as int).budget, bid_earned(bt0)),
            ..read_bid_config(bt0, TO_BID_TRACK_AD_CONFIG as int)
        });
    }
    Ok(should_have_earned)
}

fn read_settle_update(messenger: &Vec<u8>, deleting: bool, bid_index: u32, tracks_key: &Pubkey) -> (r: Option<u64>)
    requires
        messenger@.len() > MESSENGER_TO_STATE,
        messenger@[MESSENGER_TO_STATE as int] == MESSENGER_DELEGATED_CASHOUT ==> messenger@.len()
            >= MESSENGER_TO_PAYLOAD + MESSAGE_PAYLOAD_SIZE,
    ensures
        r == settle_update(messenger@, deleting, bid_index, *tracks_key),
{
    if messenger[MESSENGER_TO_STATE] != MESSENGER_DELEGATED_CASHOUT {
        return None;
    }
    match decode_update(messenger, MESSENGER_TO_PAYLOAD, MESSAGE_PAYLOAD_SIZE) {
        Some(RollupUpdates::CashoutBid { account, changes_count, index, .. }) => if !deleting && index
            == bid_index && keys_equal(&account, tracks_key) {
            Some(changes_count)
        } else {
            None
        },
        Some(RollupUpdates::DeletingBid { account, changes_count, index, .. }) => if deleting && index
            == bid_index && keys_equal(&account, tracks_key) {
            Some(changes_count)
        } else {
            None
        },
        _ => None,
    }
}

/// Whether settling a bid stays on the inputs the program handles (see
/// [`settle_requires`]); on the others the program fails outright.
pub fn settle_fits(
    bid_track: &AccountInfo,
    bid_messenger: &AccountInfo,
    ad_campaign: &Vec<u8>,
    ad_campaign_bid_tracks: &AccountInfo,
    deleting: bool,
) -> (ok: bool)
    ensures
        ok == settle_requires(*bid_track, *bid_messenger, ad_campaign@, *ad_campaign_bid_tracks, deleting),
{
    let bt = &bid_track.data;
    let msg = &bid_messenger.data;
    let tracks = &ad_campaign_bid_tracks.data;
    if bt.len() < TO_BID_TRACK_CAMPAIGN_BID_INDEX + 4 || msg.len() <= MESSENGER_TO_STATE {
        return false;
    }
    if msg[MESSENGER_TO_STATE] == MESSENGER_DELEGATED_CASHOUT && msg.len() < MESSENGER_TO_PAYLOAD
        + MESSAGE_PAYLOAD_SIZE {
        return false;
    }
    let index = get_u32(bt, TO_BID_TRACK_CAMPAIGN_BID_INDEX);
    if read_settle_update(msg, deleting, index, &ad_campaign_bid_tracks.key).is_none() {
        return true;
    }
    let pos: u64 = START_FROM_AD_CAMPAIGN as u64 + index as u64;
    if pos >= ad_campaign.len() as u64 {
        return false;
    }
    let state = ad_campaign[pos as usize];
    let state_ok = if deleting {
        state == AD_CAMPAIGN_BID_STATE_DELETING || state == AD_CAMPAIGN_BID_STATE_DELETING_PAUSED
    } else {
        state == AD_CAMPAIGN_BID_STATE_CASHINGOUT || state == AD_CAMPAIGN_BID_STATE_CASHINGOUT_PAUSED
    };
    if !state_ok {
        return true;
    }
    if bt.len() < TO_BID_TRACK_TOTAL_CLICKS + 8 {
        return false;
    }
    let views = get_u64(bt, TO_BID_TRACK_TOTAL_VIEWS);
    let clicks = get_u64(bt, TO_BID_TRACK_TOTAL_CLICKS);
    let cfg = bid_config_from_bytes(bt, TO_BID_TRACK_AD_CONFIG);
    proof {
        assert(views * cfg.budget_per_view <= u64::MAX * u64::MAX) by (nonlinear_arith)
            requires
                views <= u64::MAX,
                cfg.budget_per_view <= u64::MAX,
        ;
        assert(clicks * cfg.budget_per_click <= u64::MAX * u64::MAX) by (nonlinear_arith)
            requires
                clicks <= u64::MAX,
                cfg.budget_per_click <= u64::MAX,
        ;
    }
    let pv: u128 = views as u128 * cfg.budget_per_view as u128;
    let pc: u128 = clicks as u128 * cfg.budget_per_click as u128;
    if pv > u64::MAX as u128 || pc > u64::MAX as u128 || pv + pc > u64::MAX as u128 {
        return false;
    }
    let earned: u64 = (pv + pc) as u64;
    let slot: u64 = START_FROM_AD_CAMPAIGN_BID_TRACKS as u64 + SPACE_IN_CAMPAIGN_BID_TRACK as u64 * index as u64;
    if slot >= tracks.len() as u64 {
        return false;
    }
    if tracks[slot as usize] != 1 {
        return true;
    }
    let remaining = if earned > cfg.budget {
        0
    } else {
        cfg.budget - earned
    };
    if remaining == 0 && slot + 1 >= tracks.len() as u64 {
        return false;
    }
    let total = get_u64(tracks, TO_AD_CAMPAIGN_BID_EARNED);
    earned <= total && earned <= bid_track.lamports && bid_messenger.lamports as u128 + earned as u128
        <= u64::MAX as u128
}

/// Settles a bid's earnings for a cash-out, on the rollup (see
/// [`settle_ensures`]); returns the amount settled.  The messenger is then
/// committed back to the base layer.
pub fn commit_cashout(
    bid_track: &mut AccountInfo,
    bid_messenger: &mut AccountInfo,
    ad_campaign: &Vec<u8>,
    ad_campaign_bid_tracks: &mut AccountInfo,
) -> (r: Result<u64, ProgramError>)
    requires
        settle_requires(*old(bid_track), *old(bid_messenger), ad_campaign@, *old(ad_campaign_bid_tracks), false),
    ensures
        settle_ensures(
            *old(bid_track),
            *old(bid_messenger),
            ad_campaign@,
            *old(ad_campaign_bid_tracks),
            *final(bid_track),
            *final(bid_messenger),
            *final(ad_campaign_bid_tracks),
            r,
            false,
        ),
{
    settle_bid(bid_track, bid_messenger, ad_campaign, ad_campaign_bid_tracks, false)
}

/// Settles a bid's earnings for its deletion, on the rollup (see
/// [`settle_ensures`]); returns the amount settled.  The messenger and the
/// bid track are then committed back to the base layer.
pub fn commit_delete_bid(
    bid_track: &mut AccountInfo,
    bid_messenger: &mut AccountInfo,
    ad_campaign: &Vec<u8>,
    ad_campaign_bid_tracks: &mut AccountInfo,
) -> (r: Result<u64, ProgramError>)
    requires
        settle_requires(*old(bid_track), *old(bid_messenger), ad_campaign@, *old(ad_campaign_bid_tracks), true),
    ensures
        settle_ensures(
            *old(bid_track),
            *old(bid_messenger),
            ad_campaign@,
            *old(ad_campaign_bid_tracks),
            *final(bid_track),
            *final(bid_messenger),
            *final(ad_campaign_bid_tracks),
            r,
            true,
        ),
{
    settle_bid(bid_track, bid_messenger, ad_campaign, ad_campaign_bid_tracks, true)
}

/// Where the click filter of a bid track starts.
pub open spec fn click_bloom_start() -> int {
    START_FROM_BID_TRACK + START_FROM_BID_TRACK
}

/// Offset in a bid track where the time of the last paid view is stamped:
/// the bid's offset in the campaign's bid-track account, plus 18.
pub open spec fn last_view_stamp(index: u32) -> int {
    track_slot(index) + 18
}

/// The checks a recorded view or click passes before anything is counted:
/// the caller is the store's master manager, the bid is ready in the
/// campaign, and its slot in the campaign's bid-track account is live.
pub open spec fn record_checks(
    store: Store,
    creator: Pubkey,
    ad_campaign: Seq<u8>,
    tracks: Seq<u8>,
    index: u32,
) -> Option<ProgramError> {
    if store.master_manager@ != creator@ {
        Some(ProgramError::IllegalOwner)
    } else if ad_campaign[START_FROM_AD_CAMPAIGN + index] != AD_CAMPAIGN_BID_STATE_READY {
        Some(ProgramError::InvalidAccountData)
    } else if tracks[track_slot(index)] != 1 {
        Some(ProgramError::InvalidAccountData)
    } else {
        None
    }
}

/// Whether a click by `id` is counted: it is one, and the click filter does
/// not report `id` yet.
pub open spec fn click_counted(bt: Seq<u8>, click: u8, id: Seq<u8>, bloom_bits: usize) -> bool {
    click > 0 && !bloom_contains(bt, click_bloom_start(), id, bloom_bits)
}

/// The bid track once a click by `id` is recorded: `id` in the click
/// filter, and the click count raised when the click is counted.
pub open spec fn after_click(bt: Seq<u8>, click: u8, id: Seq<u8>, bloom_bits: usize) -> Seq<u8> {
    let bt1 = if click > 0 {
        bloom_add(bt, click_bloom_start(), id, bloom_bits, BLOOM_HASH_COUNT as nat)
    } else {
        bt
    };
    if click_counted(bt, click, id, bloom_bits) {
        splice(
            bt1,
            TO_BID_TRACK_TOTAL_CLICKS as int,
            le64((read_u64(bt, TO_BID_TRACK_TOTAL_CLICKS as int) + 1) as u64),
        )
    } else {
        bt1
    }
}

/// Whether a view by `id` is counted, after the click (if any) is
/// recorded: it is one, and the view filter does not report `id` yet.
pub open spec fn view_counted(bt: Seq<u8>, view: u8, click: u8, id: Seq<u8>, bloom_bits: usize) -> bool {
    view > 0 && !bloom_contains(after_click(bt, click, id, bloom_bits), START_FROM_BID_TRACK as int, id, bloom_bits)
}

/// What a recorded interaction earns: a counted click the price of a view,
/// a counted view the price of a click.
pub open spec fn interaction_earnings(bt: Seq<u8>, view: u8, click: u8, id: Seq<u8>, bloom_bits: usize) -> int {
    let cfg = read_bid_config(bt, TO_BID_TRACK_AD_CONFIG as int);
    (if click_counted(bt, click, id, bloom_bits) {
        cfg.budget_per_view as int
    } else {
        0
    }) + (if view_counted(bt, view, click, id, bloom_bits) {
        cfg.budget_per_click as int
    } else {
        0
    })
}

/// The views and clicks counted once an interaction is recorded.
pub open spec fn counts_after(bt: Seq<u8>, view: u8, click: u8, id: Seq<u8>, bloom_bits: usize) -> (int, int) {
    let views = read_u64(bt, TO_BID_TRACK_TOTAL_VIEWS as int);
    let clicks = read_u64(bt, TO_BID_TRACK_TOTAL_CLICKS as int);
    (
        if view_counted(bt, view, click, id, bloom_bits) {
            views + 1
        } else {
            views as int
        },
        if click_counted(bt, click, id, bloom_bits) {
            clicks + 1
        } else {
            clicks as int
        },
    )
}

/// The effect of recording an interaction by `identifier` on a bid track
/// and on the campaign's bid-track account, once the checks pass.  A click
/// goes into the click filter and is counted when the identifier is new to
/// it; a view goes into the view filter and is counted (with the day's
/// views) when new to it.  A new click earns the price of a view and a new
/// view the price of a click.  When the counted interactions reach the
/// budget the bid's budget flag is cleared; when anything was earned, the
/// time is stamped and the earnings are added to the campaign's.
/// Returns (bid track, bid-track account, earned).
pub open spec fn spec_record_view_click(
    bt: Seq<u8>,
    tracks: Seq<u8>,
    index: u32,
    view: u8,
    click: u8,
    id: Seq<u8>,
    bloom_bits: usize,
    clock32: u32,
) -> (Seq<u8>, Seq<u8>, int) {
    let cfg = read_bid_config(bt, TO_BID_TRACK_AD_CONFIG as int);
    let bt2 = after_click(bt, click, id, bloom_bits);
    let views_in_day = read_u32(bt, TO_BID_TRACK_VIEWS_IN_DAY as int);
    let bt3 = if view > 0 {
        bloom_add(bt2, START_FROM_BID_TRACK as int, id, bloom_bits, BLOOM_HASH_COUNT as nat)
    } else {
        bt2
    };
    let (views2, clicks2) = counts_after(bt, view, click, id, bloom_bits);
    let bt4 = if view_counted(bt, view, click, id, bloom_bits) {
        splice(
            splice(bt3, TO_BID_TRACK_TOTAL_VIEWS as int, le64(views2 as u64)),
            TO_BID_TRACK_VIEWS_IN_DAY as int,
            le32((views_in_day + 1) as u32),
        )
    } else {
        bt3
    };
    let earned = interaction_earnings(bt, view, click, id, bloom_bits);
    let spent = views2 * cfg.budget_per_view + clicks2 * cfg.budget_per_click;
    let t1 = if spent >= cfg.budget {
        tracks.update(track_slot(index) + 1, 0)
    } else {
        tracks
    };
    if earned > 0 {
        (
            splice(bt4, last_view_stamp(index), le32(clock32)),
            splice(
                t1,
                TO_AD_CAMPAIGN_BID_EARNED as int,
                le64((read_u64(tracks, TO_AD_CAMPAIGN_BID_EARNED as int) + earned) as u64),
            ),
            earned,
        )
    } else {
        (bt4, t1, earned)
    }
}

/// What recording an interaction needs of its inputs once the checks pass,
/// that is, the inputs on which the program does not fail: the bid track
/// holds its counters and the filter bytes the identifier selects; no
/// counter, product or sum of earnings overflows; the budget flag, the time
/// stamp and the campaign's earnings are inside their accounts when they
/// are written.
pub open spec fn record_requires(
    bt: Seq<u8>,
    tracks: Seq<u8>,
    index: u32,
    view: u8,
    click: u8,
    id: Seq<u8>,
    bloom_bits: usize,
) -> bool {
    let cfg = read_bid_config(bt, TO_BID_TRACK_AD_CONFIG as int);
    let (views2, clicks2) = counts_after(bt, view, click, id, bloom_bits);
    let earned = interaction_earnings(bt, view, click, id, bloom_bits);
    let spent = views2 * cfg.budget_per_view + clicks2 * cfg.budget_per_click;
    &&& bt.len() >= TO_BID_TRACK_VIEWS_IN_DAY + 4
    &&& click > 0 ==> bloom_in_range(bt, click_bloom_start(), id, bloom_bits)
    &&& view > 0 ==> bloom_in_range(after_click(bt, click, id, bloom_bits), START_FROM_BID_TRACK as int, id, bloom_bits)
    &&& click_counted(bt, click, id, bloom_bits) ==> read_u64(bt, TO_BID_TRACK_TOTAL_CLICKS as int) < u64::MAX
    &&& view_counted(bt, view, click, id, bloom_bits) ==> {
        &&& read_u64(bt, TO_BID_TRACK_TOTAL_VIEWS as int) < u64::MAX
        &&& read_u32(bt, TO_BID_TRACK_VIEWS_IN_DAY as int) < u32::MAX
    }
    &&& earned <= u64::MAX
    &&& views2 * cfg.budget_per_view <= u64::MAX
    &&& clicks2 * cfg.budget_per_click <= u64::MAX
    &&& spent <= u64::MAX
    &&& spent >= cfg.budget ==> track_slot(index) + 1 < tracks.len()
    &&& earned > 0 ==> {
        &&& last_view_stamp(index) + 4 <= bt.len()
        &&& tracks.len() >= TO_AD_CAMPAIGN_BID_EARNED + 8
        &&& read_u64(tracks, TO_AD_CAMPAIGN_BID_EARNED as int) + earned <= u64::MAX
    }
}

/// A viewer is paid for once.  After a view by `id` is recorded, a
/// second view by the same `id` is not counted: the count of views, the
/// day's views and the campaign's earnings stay as they were, and it earns
/// nothing.  This holds when the time stamp of paid interactions lies
/// outside the view filter, as it does for the first slot of a campaign.
pub proof fn lemma_view_counted_once(
    bt: Seq<u8>,
    tracks: Seq<u8>,
    index: u32,
    id: Seq<u8>,
    bloom_bits: usize,
    first_clock: u32,
    second_clock: u32,
)
    requires
        record_requires(bt, tracks, index, 1, 0, id, bloom_bits),
        track_slot(index) + SPACE_IN_CAMPAIGN_BID_TRACK <= tracks.len(),
        last_view_stamp(index) + 4 <= START_FROM_BID_TRACK || last_view_stamp(index) > START_FROM_BID_TRACK
            + (bloom_bits - 1) / 8,
    ensures
        ({
            let (bt1, t1, e1) = spec_record_view_click(bt, tracks, index, 1, 0, id, bloom_bits, first_clock);
            let (bt2, t2, e2) = spec_record_view_click(bt1, t1, index, 1, 0, id, bloom_bits, second_clock);
            &&& read_u64(bt2, TO_BID_TRACK_TOTAL_VIEWS as int) == read_u64(bt1, TO_BID_TRACK_TOTAL_VIEWS as int)
            &&& read_u32(bt2, TO_BID_TRACK_VIEWS_IN_DAY as int) == read_u32(bt1, TO_BID_TRACK_VIEWS_IN_DAY as int)
            &&& read_u64(t2, TO_AD_CAMPAIGN_BID_EARNED as int) == read_u64(t1, TO_AD_CAMPAIGN_BID_EARNED as int)
            &&& e2 == 0
        }),
{
    let start = START_FROM_BID_TRACK as int;
    let bt3 = bloom_add(bt, start, id, bloom_bits, BLOOM_HASH_COUNT as nat);
    lemma_bloom_no_false_negative(bt, start, id, bloom_bits);
    lemma_bloom_add_frame(bt, start, id, bloom_bits, BLOOM_HASH_COUNT as nat, 0, 0);
    let views = read_u64(bt, TO_BID_TRACK_TOTAL_VIEWS as int);
    let views_in_day = read_u32(bt, TO_BID_TRACK_VIEWS_IN_DAY as int);
    lemma_le_lengths(0, (views_in_day + 1) as u32, (views + 1) as u64);
    lemma_le_lengths(0, first_clock, 0);
    let (bt1, t1, e1) = spec_record_view_click(bt, tracks, index, 1, 0, id, bloom_bits, first_clock);
    assert(bt1.len() == bt3.len());
    assert(bloom_in_range(bt3, start, id, bloom_bits));
    assert forall|k: int| 0 <= k < BLOOM_HASH_COUNT implies bt3[start + #[trigger] bloom_index(id, k, bloom_bits) / 8]
        == bt1[start + bloom_index(id, k, bloom_bits) / 8] by {
        let idx = bloom_index(id, k, bloom_bits);
        assert(idx / 8 <= (bloom_bits - 1) / 8) by (nonlinear_arith)
            requires
                idx < bloom_bits,
        ;
    }
    lemma_bloom_contains_frame(bt3, bt1, start, id, bloom_bits);
    assert(bloom_in_range(bt1, start, id, bloom_bits));
    lemma_bloom_add_frame(bt1, start, id, bloom_bits, BLOOM_HASH_COUNT as nat, TO_BID_TRACK_TOTAL_VIEWS as int, 8);
    lemma_bloom_add_frame(bt1, start, id, bloom_bits, BLOOM_HASH_COUNT as nat, TO_BID_TRACK_VIEWS_IN_DAY as int, 4);
    lemma_record_keeps_tracks_len(bt, tracks, index, 1, 0, id, bloom_bits, first_clock);
    lemma_earned_kept(t1, index);
}

/// Recording an interaction leaves the campaign's bid-track account as long
/// as it was.
proof fn lemma_record_keeps_tracks_len(
    bt: Seq<u8>,
    tracks: Seq<u8>,
    index: u32,
    view: u8,
    click: u8,
    id: Seq<u8>,
    bloom_bits: usize,
    clock32: u32,
)
    requires
        record_requires(bt, tracks, index, view, click, id, bloom_bits),
    ensures
        spec_record_view_click(bt, tracks, index, view, click, id, bloom_bits, clock32).1.len() == tracks.len(),
{
    let cfg = read_bid_config(bt, TO_BID_TRACK_AD_CONFIG as int);
    let (views2, clicks2) = counts_after(bt, view, click, id, bloom_bits);
    let spent = views2 * cfg.budget_per_view + clicks2 * cfg.budget_per_click;
    let earned = interaction_earnings(bt, view, click, id, bloom_bits);
    let t1 = if spent >= cfg.budget {
        tracks.update(track_slot(index) + 1, 0)
    } else {
        tracks
    };
    assert(t1.len() == tracks.len());
    if earned > 0 {
        let v = (read_u64(tracks, TO_AD_CAMPAIGN_BID_EARNED as int) + earned) as u64;
        lemma_le_lengths(0, 0, v);
        assert(splice(t1, TO_AD_CAMPAIGN_BID_EARNED as int, le64(v)).len() == t1.len());
    }
}

/// The view filter of a bid track (from its header's end, byte 142) reads
/// the same after a click by `id` is recorded: the click goes into its own
/// filter (from byte 284) and the click count, which lie outside it.
proof fn lemma_click_keeps_view_filter(bt: Seq<u8>, id: Seq<u8>, bloom_bits: usize)
    requires
        bt.len() >= TO_BID_TRACK_VIEWS_IN_DAY + 4,
        bloom_in_range(bt, 2 * START_FROM_BID_TRACK, id, bloom_bits),
        bloom_in_range(after_click(bt, 1, id, bloom_bits), START_FROM_BID_TRACK as int, id, bloom_bits)
            || bloom_in_range(bt, START_FROM_BID_TRACK as int, id, bloom_bits),
        START_FROM_BID_TRACK + (bloom_bits - 1) / 8 < 2 * START_FROM_BID_TRACK,
    ensures
        after_click(bt, 1, id, bloom_bits).len() == bt.len(),
        bloom_in_range(bt, START_FROM_BID_TRACK as int, id, bloom_bits),
        bloom_in_range(after_click(bt, 1, id, bloom_bits), START_FROM_BID_TRACK as int, id, bloom_bits),
        bloom_contains(after_click(bt, 1, id, bloom_bits), START_FROM_BID_TRACK as int, id, bloom_bits)
            == bloom_contains(bt, START_FROM_BID_TRACK as int, id, bloom_bits),
        after_click(bt, 1, id, bloom_bits).subrange(TO_BID_TRACK_TOTAL_VIEWS as int, TO_BID_TRACK_TOTAL_VIEWS + 8)
            == bt.subrange(TO_BID_TRACK_TOTAL_VIEWS as int, TO_BID_TRACK_TOTAL_VIEWS + 8),
        after_click(bt, 1, id, bloom_bits).subrange(TO_BID_TRACK_VIEWS_IN_DAY as int, TO_BID_TRACK_VIEWS_IN_DAY + 4)
            == bt.subrange(TO_BID_TRACK_VIEWS_IN_DAY as int, TO_BID_TRACK_VIEWS_IN_DAY + 4),
{
    let cs = click_bloom_start();
    let v = START_FROM_BID_TRACK as int;
    let ba = bloom_add(bt, cs, id, bloom_bits, BLOOM_HASH_COUNT as nat);
    let after = after_click(bt, 1, id, bloom_bits);
    lemma_bloom_add_frame(bt, cs, id, bloom_bits, BLOOM_HASH_COUNT as nat, 0, 0);
    lemma_bloom_add_frame(bt, cs, id, bloom_bits, BLOOM_HASH_COUNT as nat, TO_BID_TRACK_TOTAL_VIEWS as int, 8);
    lemma_bloom_add_frame(bt, cs, id, bloom_bits, BLOOM_HASH_COUNT as nat, TO_BID_TRACK_VIEWS_IN_DAY as int, 4);
    let clicks = read_u64(bt, TO_BID_TRACK_TOTAL_CLICKS as int);
    lemma_le_lengths(0, 0, (clicks + 1) as u64);
    if click_counted(bt, 1, id, bloom_bits) {
        lemma_splice_basics(ba, TO_BID_TRACK_TOTAL_CLICKS as int, le64((clicks + 1) as u64));
        lemma_splice_disjoint(ba, TO_BID_TRACK_TOTAL_CLICKS as int, le64((clicks + 1) as u64), TO_BID_TRACK_TOTAL_VIEWS as int, 8);
        lemma_splice_disjoint(ba, TO_BID_TRACK_TOTAL_CLICKS as int, le64((clicks + 1) as u64), TO_BID_TRACK_VIEWS_IN_DAY as int, 4);
    }
    assert(after.len() == bt.len());
    assert(bloom_in_range(bt, v, id, bloom_bits) && bloom_in_range(after, v, id, bloom_bits));
    assert forall|k: int| 0 <= k < BLOOM_HASH_COUNT implies after[v + #[trigger] bloom_index(id, k, bloom_bits) / 8]
        == bt[v + bloom_index(id, k, bloom_bits) / 8] by {
        let idx = bloom_index(id, k, bloom_bits);
        let p = v + idx / 8;
        assert(idx / 8 <= (bloom_bits - 1) / 8) by (nonlinear_arith)
            requires
                idx < bloom_bits,
        ;
        lemma_bloom_add_frame(bt, cs, id, bloom_bits, BLOOM_HASH_COUNT as nat, p, 1);
        assert(ba[p] == ba.subrange(p, p + 1)[0]);
        assert(bt[p] == bt.subrange(p, p + 1)[0]);
        if click_counted(bt, 1, id, bloom_bits) {
            lemma_splice_disjoint(ba, TO_BID_TRACK_TOTAL_CLICKS as int, le64((clicks + 1) as u64), p, 1);
            assert(after[p] == after.subrange(p, p + 1)[0]);
        }
    }
    assert(bloom_in_range(bt, v, id, bloom_bits));
    if bloom_contains(after, v, id, bloom_bits) {
        lemma_bloom_contains_frame(after, bt, v, id, bloom_bits);
    }
    if bloom_contains(bt, v, id, bloom_bits) {
        lemma_bloom_contains_frame(bt, after, v, id, bloom_bits);
    }
}

/// Clicks and views are counted apart.  Recording a click and a view by
/// `id` together counts the click exactly when the click filter (from byte
/// 284) does not report `id`, and the view exactly when the view filter
/// (from byte 142) does not, whatever the other filter holds; it earns the
/// price of a view for a new click plus the price of a click for a new view
/// (the prices are stored that way round), and adds that to the campaign's
/// earnings.  This holds when the view filter ends before the click filter
/// begins.
pub proof fn lemma_click_and_view_counted_apart(
    bt: Seq<u8>,
    tracks: Seq<u8>,
    index: u32,
    id: Seq<u8>,
    bloom_bits: usize,
    clock32: u32,
)
    requires
        record_requires(bt, tracks, index, 1, 1, id, bloom_bits),
        START_FROM_BID_TRACK + (bloom_bits - 1) / 8 < 2 * START_FROM_BID_TRACK,
    ensures
        ({
            let (bt1, t1, e) = spec_record_view_click(bt, tracks, index, 1, 1, id, bloom_bits, clock32);
            let cfg = read_bid_config(bt, TO_BID_TRACK_AD_CONFIG as int);
            let click_new = !bloom_contains(bt, 2 * START_FROM_BID_TRACK, id, bloom_bits);
            let view_new = !bloom_contains(bt, START_FROM_BID_TRACK as int, id, bloom_bits);
            &&& read_u64(bt1, TO_BID_TRACK_TOTAL_CLICKS as int) == read_u64(bt, TO_BID_TRACK_TOTAL_CLICKS as int) + (
            if click_new {
                1int
            } else {
                0int
            })
            &&& read_u64(bt1, TO_BID_TRACK_TOTAL_VIEWS as int) == read_u64(bt, TO_BID_TRACK_TOTAL_VIEWS as int) + (
            if view_new {
                1int
            } else {
                0int
            })
            &&& e == (if click_new {
                cfg.budget_per_view as int
            } else {
                0int
            }) + (if view_new {
                cfg.budget_per_click as int
            } else {
                0int
            })
            &&& e > 0 ==> read_u64(t1, TO_AD_CAMPAIGN_BID_EARNED as int) == read_u64(
                tracks,
                TO_AD_CAMPAIGN_BID_EARNED as int,
            ) + e
        }),
{
    let v = START_FROM_BID_TRACK as int;
    let cs = click_bloom_start();
    lemma_click_keeps_view_filter(bt, id, bloom_bits);
    let after = after_click(bt, 1, id, bloom_bits);
    let cfg = read_bid_config(bt, TO_BID_TRACK_AD_CONFIG as int);
    let views = read_u64(bt, TO_BID_TRACK_TOTAL_VIEWS as int);
    let clicks = read_u64(bt, TO_BID_TRACK_TOTAL_CLICKS as int);
    let vid = read_u32(bt, TO_BID_TRACK_VIEWS_IN_DAY as int);
    lemma_le_lengths(0, (vid + 1) as u32, (views + 1) as u64);
    lemma_le_lengths(0, clock32, (clicks + 1) as u64);
    let ba = bloom_add(bt, cs, id, bloom_bits, BLOOM_HASH_COUNT as nat);
    lemma_bloom_add_frame(bt, cs, id, bloom_bits, BLOOM_HASH_COUNT as nat, TO_BID_TRACK_TOTAL_CLICKS as int, 8);
    if click_counted(bt, 1, id, bloom_bits) {
        lemma_splice_basics(ba, TO_BID_TRACK_TOTAL_CLICKS as int, le64((clicks + 1) as u64));
        assert(read_u64(after, TO_BID_TRACK_TOTAL_CLICKS as int) == clicks + 1);
    } else {
        assert(read_u64(after, TO_BID_TRACK_TOTAL_CLICKS as int) == clicks);
    }
    assert(read_u64(after, TO_BID_TRACK_TOTAL_VIEWS as int) == views);
    let bt3 = bloom_add(after, v, id, bloom_bits, BLOOM_HASH_COUNT as nat);
    lemma_bloom_add_frame(after, v, id, bloom_bits, BLOOM_HASH_COUNT as nat, TO_BID_TRACK_TOTAL_CLICKS as int, 8);
    lemma_bloom_add_frame(after, v, id, bloom_bits, BLOOM_HASH_COUNT as nat, TO_BID_TRACK_TOTAL_VIEWS as int, 8);
    let (views2, clicks2) = counts_after(bt, 1, 1, id, bloom_bits);
    let bt4 = if view_counted(bt, 1, 1, id, bloom_bits) {
        splice(
            splice(bt3, TO_BID_TRACK_TOTAL_VIEWS as int, le64(views2 as u64)),
            TO_BID_TRACK_VIEWS_IN_DAY as int,
            le32((vid + 1) as u32),
        )
    } else {
        bt3
    };
    if view_counted(bt, 1, 1, id, bloom_bits) {
        let b1 = splice(bt3, TO_BID_TRACK_TOTAL_VIEWS as int, le64(views2 as u64));
        lemma_splice_basics(bt3, TO_BID_TRACK_TOTAL_VIEWS as int, le64(views2 as u64));
        lemma_splice_disjoint(bt3, TO_BID_TRACK_TOTAL_VIEWS as int, le64(views2 as u64), TO_BID_TRACK_TOTAL_CLICKS as int, 8);
        lemma_splice_basics(b1, TO_BID_TRACK_VIEWS_IN_DAY as int, le32((vid + 1) as u32));
        lemma_splice_disjoint(b1, TO_BID_TRACK_VIEWS_IN_DAY as int, le32((vid + 1) as u32), TO_BID_TRACK_TOTAL_CLICKS as int, 8);
        lemma_splice_disjoint(b1, TO_BID_TRACK_VIEWS_IN_DAY as int, le32((vid + 1) as u32), TO_BID_TRACK_TOTAL_VIEWS as int, 8);
    }
    assert(read_u64(bt4, TO_BID_TRACK_TOTAL_CLICKS as int) == clicks2);
    assert(read_u64(bt4, TO_BID_TRACK_TOTAL_VIEWS as int) == views2);
    let earned = interaction_earnings(bt, 1, 1, id, bloom_bits);
    let spent = views2 * cfg.budget_per_view + clicks2 * cfg.budget_per_click;
    let t1 = if spent >= cfg.budget {
        tracks.update(track_slot(index) + 1, 0)
    } else {
        tracks
    };
    if earned > 0 {
        lemma_splice_basics(bt4, last_view_stamp(index), le32(clock32));
        lemma_splice_disjoint(bt4, last_view_stamp(index), le32(clock32), TO_BID_TRACK_TOTAL_CLICKS as int, 8);
        lemma_splice_disjoint(bt4, last_view_stamp(index), le32(clock32), TO_BID_TRACK_TOTAL_VIEWS as int, 8);
        let w = (read_u64(tracks, TO_AD_CAMPAIGN_BID_EARNED as int) + earned) as u64;
        lemma_le_lengths(0, 0, w);
        if spent >= cfg.budget {
            lemma_earned_kept(tracks, index);
        }
        assert(t1.subrange(TO_AD_CAMPAIGN_BID_EARNED as int, TO_AD_CAMPAIGN_BID_EARNED + 8) == tracks.subrange(
            TO_AD_CAMPAIGN_BID_EARNED as int,
            TO_AD_CAMPAIGN_BID_EARNED + 8,
        ));
        lemma_splice_basics(t1, TO_AD_CAMPAIGN_BID_EARNED as int, le64(w));
    }
}

/// A click alone is counted exactly when the click filter (from byte 284)
/// does not report the clicker, whatever the view filter holds, and it
/// never changes whether the view filter (from byte 142) reports anyone's
/// identifier `id`: a later first view by the same person is still new.
/// This holds when the view filter ends before the click filter begins and
/// the time stamp of paid interactions lies outside the view filter.
pub proof fn lemma_click_alone(
    bt: Seq<u8>,
    tracks: Seq<u8>,
    index: u32,
    id: Seq<u8>,
    bloom_bits: usize,
    clock32: u32,
)
    requires
        record_requires(bt, tracks, index, 0, 1, id, bloom_bits),
        bloom_in_range(bt, START_FROM_BID_TRACK as int, id, bloom_bits),
        START_FROM_BID_TRACK + (bloom_bits - 1) / 8 < 2 * START_FROM_BID_TRACK,
        last_view_stamp(index) + 4 <= START_FROM_BID_TRACK || last_view_stamp(index) > START_FROM_BID_TRACK
            + (bloom_bits - 1) / 8,
    ensures
        ({
            let (bt1, t1, e) = spec_record_view_click(bt, tracks, index, 0, 1, id, bloom_bits, clock32);
            let click_new = !bloom_contains(bt, 2 * START_FROM_BID_TRACK, id, bloom_bits);
            &&& read_u64(bt1, TO_BID_TRACK_TOTAL_CLICKS as int) == read_u64(bt, TO_BID_TRACK_TOTAL_CLICKS as int) + (
            if click_new {
                1int
            } else {
                0int
            })
            &&& read_u64(bt1, TO_BID_TRACK_TOTAL_VIEWS as int) == read_u64(bt, TO_BID_TRACK_TOTAL_VIEWS as int)
            &&& bloom_contains(bt1, START_FROM_BID_TRACK as int, id, bloom_bits) == bloom_contains(
                bt,
                START_FROM_BID_TRACK as int,
                id,
                bloom_bits,
            )
            &&& e == (if click_new {
                read_bid_config(bt, TO_BID_TRACK_AD_CONFIG as int).budget_per_view as int
            } else {
                0int
            })
        }),
{
    let v = START_FROM_BID_TRACK as int;
    let cs = click_bloom_start();
    lemma_click_keeps_view_filter(bt, id, bloom_bits);
    let after = after_click(bt, 1, id, bloom_bits);
    let clicks = read_u64(bt, TO_BID_TRACK_TOTAL_CLICKS as int);
    lemma_le_lengths(0, clock32, (clicks + 1) as u64);
    let ba = bloom_add(bt, cs, id, bloom_bits, BLOOM_HASH_COUNT as nat);
    lemma_bloom_add_frame(bt, cs, id, bloom_bits, BLOOM_HASH_COUNT as nat, TO_BID_TRACK_TOTAL_CLICKS as int, 8);
    if click_counted(bt, 1, id, bloom_bits) {
        lemma_splice_basics(ba, TO_BID_TRACK_TOTAL_CLICKS as int, le64((clicks + 1) as u64));
    }
    assert(!view_counted(bt, 0, 1, id, bloom_bits));
    let earned = interaction_earnings(bt, 0, 1, id, bloom_bits);
    if earned > 0 {
        let st = last_view_stamp(index);
        lemma_splice_basics(after, st, le32(clock32));
        lemma_splice_disjoint(after, st, le32(clock32), TO_BID_TRACK_TOTAL_CLICKS as int, 8);
        lemma_splice_disjoint(after, st, le32(clock32), TO_BID_TRACK_TOTAL_VIEWS as int, 8);
        let bt1 = splice(after, st, le32(clock32));
        assert forall|k: int| 0 <= k < BLOOM_HASH_COUNT implies bt1[v + #[trigger] bloom_index(id, k, bloom_bits) / 8]
            == after[v + bloom_index(id, k, bloom_bits) / 8] by {
            let idx = bloom_index(id, k, bloom_bits);
            let p = v + idx / 8;
            assert(idx / 8 <= (bloom_bits - 1) / 8) by (nonlinear_arith)
                requires
                    idx < bloom_bits,
            ;
            lemma_splice_disjoint(after, st, le32(clock32), p, 1);
            assert(bt1[p] == bt1.subrange(p, p + 1)[0]);
            assert(after[p] == after.subrange(p, p + 1)[0]);
        }
        if bloom_contains(bt1, v, id, bloom_bits) {
            lemma_bloom_contains_frame(bt1, after, v, id, bloom_bits);
        }
        if bloom_contains(after, v, id, bloom_bits) {
            lemma_bloom_contains_frame(after, bt1, v, id, bloom_bits);
        }
    }
}

/// A view alone is counted exactly when the view filter (from byte 142)
/// does not report the viewer, whatever the click filter holds, and it
/// never changes whether the click filter (from byte 284) reports `id`: a
/// later first click by the same person is still new.  This holds when the
/// view filter ends before the click filter begins and the time stamp of
/// paid interactions lies outside the click filter.
pub proof fn lemma_view_alone(
    bt: Seq<u8>,
    tracks: Seq<u8>,
    index: u32,
    id: Seq<u8>,
    bloom_bits: usize,
    clock32: u32,
)
    requires
        record_requires(bt, tracks, index, 1, 0, id, bloom_bits),
        bloom_in_range(bt, 2 * START_FROM_BID_TRACK, id, bloom_bits),
        START_FROM_BID_TRACK + (bloom_bits - 1) / 8 < 2 * START_FROM_BID_TRACK,
        last_view_stamp(index) + 4 <= 2 * START_FROM_BID_TRACK || last_view_stamp(index) > 2 * START_FROM_BID_TRACK
            + (bloom_bits - 1) / 8,
    ensures
        ({
            let (bt1, t1, e) = spec_record_view_click(bt, tracks, index, 1, 0, id, bloom_bits, clock32);
            let view_new = !bloom_contains(bt, START_FROM_BID_TRACK as int, id, bloom_bits);
            &&& read_u64(bt1, TO_BID_TRACK_TOTAL_VIEWS as int) == read_u64(bt, TO_BID_TRACK_TOTAL_VIEWS as int) + (
            if view_new {
                1int
            } else {
                0int
            })
            &&& read_u64(bt1, TO_BID_TRACK_TOTAL_CLICKS as int) == read_u64(bt, TO_BID_TRACK_TOTAL_CLICKS as int)
            &&& bloom_contains(bt1, 2 * START_FROM_BID_TRACK, id, bloom_bits) == bloom_contains(
                bt,
                2 * START_FROM_BID_TRACK,
                id,
                bloom_bits,
            )
            &&& e == (if view_new {
                read_bid_config(bt, TO_BID_TRACK_AD_CONFIG as int).budget_per_click as int
            } else {
                0int
            })
        }),
{
    let v = START_FROM_BID_TRACK as int;
    let c = 2 * START_FROM_BID_TRACK;
    let views = read_u64(bt, TO_BID_TRACK_TOTAL_VIEWS as int);
    let vid = read_u32(bt, TO_BID_TRACK_VIEWS_IN_DAY as int);
    lemma_le_lengths(0, (vid + 1) as u32, (views + 1) as u64);
    lemma_le_lengths(0, clock32, 0);
    assert(after_click(bt, 0, id, bloom_bits) == bt);
    let bt3 = bloom_add(bt, v, id, bloom_bits, BLOOM_HASH_COUNT as nat);
    lemma_bloom_add_frame(bt, v, id, bloom_bits, BLOOM_HASH_COUNT as nat, TO_BID_TRACK_TOTAL_CLICKS as int, 8);
    lemma_bloom_add_frame(bt, v, id, bloom_bits, BLOOM_HASH_COUNT as nat, TO_BID_TRACK_TOTAL_VIEWS as int, 8);
    let view_new = view_counted(bt, 1, 0, id, bloom_bits);
    let b1 = splice(bt3, TO_BID_TRACK_TOTAL_VIEWS as int, le64((views + 1) as u64));
    let bt4 = if view_new {
        splice(b1, TO_BID_TRACK_VIEWS_IN_DAY as int, le32((vid + 1) as u32))
    } else {
        bt3
    };
    if view_new {
        lemma_splice_basics(bt3, TO_BID_TRACK_TOTAL_VIEWS as int, le64((views + 1) as u64));
        lemma_splice_disjoint(bt3, TO_BID_TRACK_TOTAL_VIEWS as int, le64((views + 1) as u64), TO_BID_TRACK_TOTAL_CLICKS as int, 8);
        lemma_splice_basics(b1, TO_BID_TRACK_VIEWS_IN_DAY as int, le32((vid + 1) as u32));
        lemma_splice_disjoint(b1, TO_BID_TRACK_VIEWS_IN_DAY as int, le32((vid + 1) as u32), TO_BID_TRACK_TOTAL_CLICKS as int, 8);
        lemma_splice_disjoint(b1, TO_BID_TRACK_VIEWS_IN_DAY as int, le32((vid + 1) as u32), TO_BID_TRACK_TOTAL_VIEWS as int, 8);
    }
    let earned = interaction_earnings(bt, 1, 0, id, bloom_bits);
    let st = last_view_stamp(index);
    let bt1 = if earned > 0 {
        splice(bt4, st, le32(clock32))
    } else {
        bt4
    };
    if earned > 0 {
        lemma_splice_basics(bt4, st, le32(clock32));
        lemma_splice_disjoint(bt4, st, le32(clock32), TO_BID_TRACK_TOTAL_CLICKS as int, 8);
        lemma_splice_disjoint(bt4, st, le32(clock32), TO_BID_TRACK_TOTAL_VIEWS as int, 8);
    }
    assert(bt1.len() == bt.len());
    assert forall|k: int| 0 <= k < BLOOM_HASH_COUNT implies bt1[c + #[trigger] bloom_index(id, k, bloom_bits) / 8]
        == bt[c + bloom_index(id, k, bloom_bits) / 8] by {
        let idx = bloom_index(id, k, bloom_bits);
        let p = c + idx / 8;
        lemma_bloom_add_frame_after(bt, v, id, bloom_bits, BLOOM_HASH_COUNT as nat, p);
        if view_new {
            lemma_splice_disjoint(bt3, TO_BID_TRACK_TOTAL_VIEWS as int, le64((views + 1) as u64), p, 1);
            lemma_splice_disjoint(b1, TO_BID_TRACK_VIEWS_IN_DAY as int, le32((vid + 1) as u32), p, 1);
            assert(b1[p] == b1.subrange(p, p + 1)[0]);
            assert(bt3[p] == bt3.subrange(p, p + 1)[0]);
            assert(bt4[p] == bt4.subrange(p, p + 1)[0]);
        }
        if earned > 0 {
            assert(idx / 8 <= (bloom_bits - 1) / 8) by (nonlinear_arith)
                requires
                    idx < bloom_bits,
            ;
            lemma_splice_disjoint(bt4, st, le32(clock32), p, 1);
            assert(bt1[p] == bt1.subrange(p, p + 1)[0]);
            assert(bt4[p] == bt4.subrange(p, p + 1)[0]);
        }
    }
    if bloom_contains(bt1, c, id, bloom_bits) {
        lemma_bloom_contains_frame(bt1, bt, c, id, bloom_bits);
    }
    if bloom_contains(bt, c, id, bloom_bits) {
        lemma_bloom_contains_frame(bt, bt1, c, id, bloom_bits);
    }
}

/// The counters a recorded interaction leaves in the bid track: the views
/// and clicks it counts, and the day's views raised by a counted view.
proof fn lemma_record_counters(
    bt: Seq<u8>,
    tracks: Seq<u8>,
    index: u32,
    view: u8,
    click: u8,
    id: Seq<u8>,
    bloom_bits: usize,
    clock32: u32,
)
    requires
        record_requires(bt, tracks, index, view, click, id, bloom_bits),
    ensures
        ({
            let bt1 = spec_record_view_click(bt, tracks, index, view, click, id, bloom_bits, clock32).0;
            let (views2, clicks2) = counts_after(bt, view, click, id, bloom_bits);
            &&& bt1.len() == bt.len()
            &&& read_u64(bt1, TO_BID_TRACK_TOTAL_VIEWS as int) == views2
            &&& read_u64(bt1, TO_BID_TRACK_TOTAL_CLICKS as int) == clicks2
            &&& read_u32(bt1, TO_BID_TRACK_VIEWS_IN_DAY as int) == read_u32(bt, TO_BID_TRACK_VIEWS_IN_DAY as int) + (
            if view_counted(bt, view, click, id, bloom_bits) {
                1int
            } else {
                0int
            })
        }),
{
    let cs = click_bloom_start();
    let v = START_FROM_BID_TRACK as int;
    let views = read_u64(bt, TO_BID_TRACK_TOTAL_VIEWS as int);
    let clicks = read_u64(bt, TO_BID_TRACK_TOTAL_CLICKS as int);
    let vid = read_u32(bt, TO_BID_TRACK_VIEWS_IN_DAY as int);
    let (views2, clicks2) = counts_after(bt, view, click, id, bloom_bits);
    lemma_le_lengths(0, (vid + 1) as u32, (views + 1) as u64);
    lemma_le_lengths(0, clock32, (clicks + 1) as u64);
    let ba = if click > 0 {
        bloom_add(bt, cs, id, bloom_bits, BLOOM_HASH_COUNT as nat)
    } else {
        bt
    };
    if click > 0 {
        lemma_bloom_add_frame(bt, cs, id, bloom_bits, BLOOM_HASH_COUNT as nat, TO_BID_TRACK_TOTAL_VIEWS as int, 8);
        lemma_bloom_add_frame(bt, cs, id, bloom_bits, BLOOM_HASH_COUNT as nat, TO_BID_TRACK_TOTAL_CLICKS as int, 8);
        lemma_bloom_add_frame(bt, cs, id, bloom_bits, BLOOM_HASH_COUNT as nat, TO_BID_TRACK_VIEWS_IN_DAY as int, 4);
    }
    let after = after_click(bt, click, id, bloom_bits);
    if click_counted(bt, click, id, bloom_bits) {
        lemma_splice_basics(ba, TO_BID_TRACK_TOTAL_CLICKS as int, le64((clicks + 1) as u64));
        lemma_splice_disjoint(ba, TO_BID_TRACK_TOTAL_CLICKS as int, le64((clicks + 1) as u64), TO_BID_TRACK_TOTAL_VIEWS as int, 8);
        lemma_splice_disjoint(ba, TO_BID_TRACK_TOTAL_CLICKS as int, le64((clicks + 1) as u64), TO_BID_TRACK_VIEWS_IN_DAY as int, 4);
    }
    assert(after.len() == bt.len());
    assert(read_u64(after, TO_BID_TRACK_TOTAL_VIEWS as int) == views);
    assert(read_u64(after, TO_BID_TRACK_TOTAL_CLICKS as int) == clicks2);
    assert(read_u32(after, TO_BID_TRACK_VIEWS_IN_DAY as int) == vid);
    let bt3 = if view > 0 {
        bloom_add(after, v, id, bloom_bits, BLOOM_HASH_COUNT as nat)
    } else {
        after
    };
    if view > 0 {
        lemma_bloom_add_frame(after, v, id, bloom_bits, BLOOM_HASH_COUNT as nat, TO_BID_TRACK_TOTAL_VIEWS as int, 8);
        lemma_bloom_add_frame(after, v, id, bloom_bits, BLOOM_HASH_COUNT as nat, TO_BID_TRACK_TOTAL_CLICKS as int, 8);
        lemma_bloom_add_frame(after, v, id, bloom_bits, BLOOM_HASH_COUNT as nat, TO_BID_TRACK_VIEWS_IN_DAY as int, 4);
    }
    let b1 = splice(bt3, TO_BID_TRACK_TOTAL_VIEWS as int, le64(views2 as u64));
    let bt4 = if view_counted(bt, view, click, id, bloom_bits) {
        splice(b1, TO_BID_TRACK_VIEWS_IN_DAY as int, le32((vid + 1) as u32))
    } else {
        bt3
    };
    if view_counted(bt, view, click, id, bloom_bits) {
        lemma_splice_basics(bt3, TO_BID_TRACK_TOTAL_VIEWS as int, le64(views2 as u64));
        lemma_splice_disjoint(bt3, TO_BID_TRACK_TOTAL_VIEWS as int, le64(views2 as u64), TO_BID_TRACK_TOTAL_CLICKS as int, 8);
        lemma_splice_disjoint(bt3, TO_BID_TRACK_TOTAL_VIEWS as int, le64(views2 as u64), TO_BID_TRACK_VIEWS_IN_DAY as int, 4);
        lemma_splice_basics(b1, TO_BID_TRACK_VIEWS_IN_DAY as int, le32((vid + 1) as u32));
        lemma_splice_disjoint(b1, TO_BID_TRACK_VIEWS_IN_DAY as int, le32((vid + 1) as u32), TO_BID_TRACK_TOTAL_CLICKS as int, 8);
        lemma_splice_disjoint(b1, TO_BID_TRACK_VIEWS_IN_DAY as int, le32((vid + 1) as u32), TO_BID_TRACK_TOTAL_VIEWS as int, 8);
    }
    assert(bt4.len() == bt.len());
    assert(read_u64(bt4, TO_BID_TRACK_TOTAL_VIEWS as int) == views2);
    assert(read_u64(bt4, TO_BID_TRACK_TOTAL_CLICKS as int) == clicks2);
    let earned = interaction_earnings(bt, view, click, id, bloom_bits);
    if earned > 0 {
        let st = last_view_stamp(index);
        lemma_splice_basics(bt4, st, le32(clock32));
        lemma_splice_disjoint(bt4, st, le32(clock32), TO_BID_TRACK_TOTAL_CLICKS as int, 8);
        lemma_splice_disjoint(bt4, st, le32(clock32), TO_BID_TRACK_TOTAL_VIEWS as int, 8);
        lemma_splice_disjoint(bt4, st, le32(clock32), TO_BID_TRACK_VIEWS_IN_DAY as int, 4);
    }
}

/// A bid's budget flag in the campaign's bid-track account is cleared
/// exactly when, after the interaction is recorded, the views counted times
/// the price of a view plus the clicks counted times the price of a click
/// reach the bid's budget; otherwise the flag is left as it was.  The day's
/// views go up by one exactly when the view is counted.
pub proof fn lemma_budget_flag(
    bt: Seq<u8>,
    tracks: Seq<u8>,
    index: u32,
    view: u8,
    click: u8,
    id: Seq<u8>,
    bloom_bits: usize,
    clock32: u32,
)
    requires
        record_requires(bt, tracks, index, view, click, id, bloom_bits),
        track_slot(index) + 1 < tracks.len(),
    ensures
        ({
            let (bt1, t1, e) = spec_record_view_click(bt, tracks, index, view, click, id, bloom_bits, clock32);
            let cfg = read_bid_config(bt, TO_BID_TRACK_AD_CONFIG as int);
            let spent = read_u64(bt1, TO_BID_TRACK_TOTAL_VIEWS as int) * cfg.budget_per_view + read_u64(
                bt1,
                TO_BID_TRACK_TOTAL_CLICKS as int,
            ) * cfg.budget_per_click;
            &&& t1.len() == tracks.len()
            &&& t1[track_slot(index) + 1] == (if spent >= cfg.budget {
                0u8
            } else {
                tracks[track_slot(index) + 1]
            })
            &&& read_u32(bt1, TO_BID_TRACK_VIEWS_IN_DAY as int) == read_u32(bt, TO_BID_TRACK_VIEWS_IN_DAY as int) + (
            if view > 0 && !bloom_contains(after_click(bt, click, id, bloom_bits), START_FROM_BID_TRACK as int, id, bloom_bits) {
                1int
            } else {
                0int
            })
        }),
{
    lemma_record_counters(bt, tracks, index, view, click, id, bloom_bits, clock32);
    lemma_record_keeps_tracks_len(bt, tracks, index, view, click, id, bloom_bits, clock32);
    let cfg = read_bid_config(bt, TO_BID_TRACK_AD_CONFIG as int);
    let (views2, clicks2) = counts_after(bt, view, click, id, bloom_bits);
    let spent = views2 * cfg.budget_per_view + clicks2 * cfg.budget_per_click;
    let earned = interaction_earnings(bt, view, click, id, bloom_bits);
    let t1 = if spent >= cfg.budget {
        tracks.update(track_slot(index) + 1, 0)
    } else {
        tracks
    };
    if earned > 0 {
        let w = (read_u64(tracks, TO_AD_CAMPAIGN_BID_EARNED as int) + earned) as u64;
        lemma_le_lengths(0, 0, w);
        let p = track_slot(index) + 1;
        lemma_splice_disjoint(t1, TO_AD_CAMPAIGN_BID_EARNED as int, le64(w), p, 1);
        let t2 = splice(t1, TO_AD_CAMPAIGN_BID_EARNED as int, le64(w));
        assert(t2[p] == t2.subrange(p, p + 1)[0]);
        assert(t1[p] == t1.subrange(p, p + 1)[0]);
    }
}

/// Clearing a bid's budget flag leaves the campaign's earnings as they were.
proof fn lemma_earned_kept(tracks: Seq<u8>, index: u32)
    requires
        track_slot(index) + 1 < tracks.len(),
    ensures
        read_u64(tracks.update(track_slot(index) + 1, 0), TO_AD_CAMPAIGN_BID_EARNED as int) == read_u64(
            tracks,
            TO_AD_CAMPAIGN_BID_EARNED as int,
        ),
{
    assert(tracks.update(track_slot(index) + 1, 0).subrange(
        TO_AD_CAMPAIGN_BID_EARNED as int,
        TO_AD_CAMPAIGN_BID_EARNED + 8,
    ) =~= tracks.subrange(TO_AD_CAMPAIGN_BID_EARNED as int, TO_AD_CAMPAIGN_BID_EARNED + 8));
}

/// A clicker is paid for once.  After a click by `id` is recorded, a second
/// click by the same `id` is not counted: the count of clicks and the
/// campaign's earnings stay as they were, and it earns nothing.  This holds
/// when the time stamp of paid interactions lies outside the click filter,
/// as it does for the first slots of a campaign.
pub proof fn lemma_click_counted_once(
    bt: Seq<u8>,
    tracks: Seq<u8>,
    index: u32,
    id: Seq<u8>,
    bloom_bits: usize,
    first_clock: u32,
    second_clock: u32,
)
    requires
        record_requires(bt, tracks, index, 0, 1, id, bloom_bits),
        track_slot(index) + SPACE_IN_CAMPAIGN_BID_TRACK <= tracks.len(),
        last_view_stamp(index) + 4 <= click_bloom_start() || last_view_stamp(index) > click_bloom_start() + (
        bloom_bits - 1) / 8,
    ensures
        ({
            let (bt1, t1, e1) = spec_record_view_click(bt, tracks, index, 0, 1, id, bloom_bits, first_clock);
            let (bt2, t2, e2) = spec_record_view_click(bt1, t1, index, 0, 1, id, bloom_bits, second_clock);
            &&& read_u64(bt2, TO_BID_TRACK_TOTAL_CLICKS as int) == read_u64(bt1, TO_BID_TRACK_TOTAL_CLICKS as int)
            &&& read_u64(t2, TO_AD_CAMPAIGN_BID_EARNED as int) == read_u64(t1, TO_AD_CAMPAIGN_BID_EARNED as int)
            &&& e2 == 0
        }),
{
    let start = click_bloom_start();
    let bt3 = bloom_add(bt, start, id, bloom_bits, BLOOM_HASH_COUNT as nat);
    lemma_bloom_no_false_negative(bt, start, id, bloom_bits);
    lemma_bloom_add_frame(bt, start, id, bloom_bits, BLOOM_HASH_COUNT as nat, 0, 0);
    let clicks = read_u64(bt, TO_BID_TRACK_TOTAL_CLICKS as int);
    lemma_le_lengths(0, 0, (clicks + 1) as u64);
    lemma_le_lengths(0, first_clock, 0);
    let (bt1, t1, e1) = spec_record_view_click(bt, tracks, index, 0, 1, id, bloom_bits, first_clock);
    assert(bt1.len() == bt3.len());
    assert(bloom_in_range(bt3, start, id, bloom_bits));
    assert forall|k: int| 0 <= k < BLOOM_HASH_COUNT implies bt3[start + #[trigger] bloom_index(id, k, bloom_bits) / 8]
        == bt1[start + bloom_index(id, k, bloom_bits) / 8] by {
        let idx = bloom_index(id, k, bloom_bits);
        assert(idx / 8 <= (bloom_bits - 1) / 8) by (nonlinear_arith)
            requires
                idx < bloom_bits,
        ;
    }
    lemma_bloom_contains_frame(bt3, bt1, start, id, bloom_bits);
    assert(bloom_in_range(bt1, start, id, bloom_bits));
    lemma_bloom_add_frame(bt1, start, id, bloom_bits, BLOOM_HASH_COUNT as nat, TO_BID_TRACK_TOTAL_CLICKS as int, 8);
    lemma_record_keeps_tracks_len(bt, tracks, index, 0, 1, id, bloom_bits, first_clock);
    lemma_earned_kept(t1, index);
}

/// Whether recording an interaction stays on the inputs the program
/// handles: the preconditions of [`record_view_click`]; on the others the
/// program fails outright.
pub fn record_fits(
    store: &Store,
    creator: &Pubkey,
    ad_campaign: &Vec<u8>,
    ad_campaign_bid_tracks: &Vec<u8>,
    bid_track: &Vec<u8>,
    index: u32,
    view: u8,
    click: u8,
    identifier: &Pubkey,
    bloom_bits: usize,
) -> (ok: bool)
    ensures
        ok == ({
            &&& store.master_manager@ == creator@ ==> START_FROM_AD_CAMPAIGN + index < ad_campaign@.len()
            &&& store.master_manager@ == creator@ && ad_campaign@[START_FROM_AD_CAMPAIGN + index]
                == AD_CAMPAIGN_BID_STATE_READY ==> track_slot(index) < ad_campaign_bid_tracks@.len()
            &&& record_checks(*store, *creator, ad_campaign@, ad_campaign_bid_tracks@, index) is None
                ==> record_requires(
                bid_track@,
                ad_campaign_bid_tracks@,
                index,
                view,
                click,
                identifier@,
                bloom_bits,
            )
        }),
{
    if !keys_equal(&store.master_manager, creator) {
        return true;
    }
    let pos: u64 = START_FROM_AD_CAMPAIGN as u64 + index as u64;
    if pos >= ad_campaign.len() as u64 {
        return false;
    }
    if ad_campaign[pos as usize] != AD_CAMPAIGN_BID_STATE_READY {
        return true;
    }
    proof {
        assert(22 * (index as int) <= 22 * 0xffff_ffff) by (nonlinear_arith)
            requires
                index <= 0xffff_ffff,
        ;
    }
    let slot: u64 = START_FROM_AD_CAMPAIGN_BID_TRACKS as u64 + SPACE_IN_CAMPAIGN_BID_TRACK as u64 * index as u64;
    let tracks_len = ad_campaign_bid_tracks.len();
    if slot >= tracks_len as u64 {
        return false;
    }
    if ad_campaign_bid_tracks[slot as usize] != 1 {
        return true;
    }
    let bt_len = bid_track.len();
    if bt_len < TO_BID_TRACK_VIEWS_IN_DAY + 4 {
        return false;
    }
    let ghost bt = bid_track@;
    let ghost id = identifier@;
    let cfg = bid_config_from_bytes(bid_track, TO_BID_TRACK_AD_CONFIG);
    let views = get_u64(bid_track, TO_BID_TRACK_TOTAL_VIEWS);
    let clicks = get_u64(bid_track, TO_BID_TRACK_TOTAL_CLICKS);
    let views_in_day = get_u32(bid_track, TO_BID_TRACK_VIEWS_IN_DAY);
    let mut scratch = read_bytes(bid_track, 0, bt_len);
    assert(scratch@ =~= bt);
    let id_bytes = identifier.as_slice();
    let mut click_new = false;
    if click > 0 {
        if !bloom_lookup_fits(&scratch, START_FROM_BID_TRACK + START_FROM_BID_TRACK, id_bytes, bloom_bits) {
            return false;
        }
        click_new = bloom_insert(&mut scratch, START_FROM_BID_TRACK + START_FROM_BID_TRACK, id_bytes, bloom_bits);
        if click_new {
            if clicks == u64::MAX {
                return false;
            }
            put_u64(&mut scratch, TO_BID_TRACK_TOTAL_CLICKS, clicks + 1);
        }
    }
    assert(scratch@ == after_click(bt, click, id, bloom_bits));
    let mut view_new = false;
    if view > 0 {
        if !bloom_lookup_fits(&scratch, START_FROM_BID_TRACK, id_bytes, bloom_bits) {
            return false;
        }
        view_new = bloom_insert(&mut scratch, START_FROM_BID_TRACK, id_bytes, bloom_bits);
        if view_new && (views == u64::MAX || views_in_day == u32::MAX) {
            return false;
        }
    }
    assert(click_new == click_counted(bt, click, id, bloom_bits));
    assert(view_new == view_counted(bt, view, click, id, bloom_bits));
    let earned: u128 = (if click_new {
        cfg.budget_per_view as u128
    } else {
        0
    }) + (if view_new {
        cfg.budget_per_click as u128
    } else {
        0
    });
    if earned > u64::MAX as u128 {
        return false;
    }
    let views2: u128 = if view_new {
        views as u128 + 1
    } else {
        views as u128
    };
    let clicks2: u128 = if click_new {
        clicks as u128 + 1
    } else {
        clicks as u128
    };
    proof {
        assert(views2 * cfg.budget_per_view <= 0x1_0000_0000_0000_0000 * u64::MAX) by (nonlinear_arith)
            requires
                views2 <= 0x1_0000_0000_0000_0000,
                cfg.budget_per_view <= u64::MAX,
        ;
        assert(clicks2 * cfg.budget_per_click <= 0x1_0000_0000_0000_0000 * u64::MAX) by (nonlinear_arith)
            requires
                clicks2 <= 0x1_0000_0000_0000_0000,
                cfg.budget_per_click <= u64::MAX,
        ;
    }
    let pv: u128 = views2 * cfg.budget_per_view as u128;
    let pc: u128 = clicks2 * cfg.budget_per_click as u128;
    if pv > u64::MAX as u128 || pc > u64::MAX as u128 || pv + pc > u64::MAX as u128 {
        return false;
    }
    if pv + pc >= cfg.budget as u128 && slot + 1 >= tracks_len as u64 {
        return false;
    }
    if earned > 0 {
        if slot + 18 + 4 > bt_len as u64 {
            return false;
        }
        if tracks_len < TO_AD_CAMPAIGN_BID_EARNED + 8 {
            return false;
        }
        let total = get_u64(ad_campaign_bid_tracks, TO_AD_CAMPAIGN_BID_EARNED);
        if total as u128 + earned > u64::MAX as u128 {
            return false;
        }
    }
    true
}

/// Records a view and/or a click of a bid's ad by `identifier`, as reported
/// by the store's master manager (see [`spec_record_view_click`]).  A
/// failed check changes nothing.
pub fn record_view_click(
    store: &Store,
    creator: &Pubkey,
    ad_campaign: &Vec<u8>,
    ad_campaign_bid_tracks: &mut Vec<u8>,
    bid_track: &mut Vec<u8>,
    index: u32,
    view: u8,
    click: u8,
    identifier: &Pubkey,
    bloom_bits: usize,
    clock32: u32,
) -> (r: Result<(), ProgramError>)
    requires
        store.master_manager@ == creator@ ==> START_FROM_AD_CAMPAIGN + index < ad_campaign@.len(),
        store.master_manager@ == creator@ && ad_campaign@[START_FROM_AD_CAMPAIGN + index]
            == AD_CAMPAIGN_BID_STATE_READY ==> track_slot(index) < old(ad_campaign_bid_tracks)@.len(),
        record_checks(*store, *creator, ad_campaign@, old(ad_campaign_bid_tracks)@, index) is None
            ==> record_requires(
            old(bid_track)@,
            old(ad_campaign_bid_tracks)@,
            index,
            view,
            click,
            identifier@,
            bloom_bits,
        ),
    ensures
        match record_checks(*store, *creator, ad_campaign@, old(ad_campaign_bid_tracks)@, index) {
            Some(e) => r == Err::<(), ProgramError>(e) && final(bid_track)@ == old(bid_track)@
                && final(ad_campaign_bid_tracks)@ == old(ad_campaign_bid_tracks)@,
            None => {
                let (bt, tracks, earned) = spec_record_view_click(
                    old(bid_track)@,
                    old(ad_campaign_bid_tracks)@,
                    index,
                    view,
                    click,
                    identifier@,
                    bloom_bits,
                    clock32,
                );
                r == Ok::<(), ProgramError>(()) && final(bid_track)@ == bt
                    && final(ad_campaign_bid_tracks)@ == tracks
            },
        },
{
    if !keys_equal(&store.master_manager, creator) {
        return Err(ProgramError::IllegalOwner);
    }
    let _l1 = ad_campaign.len();
    let _l2 = ad_campaign_bid_tracks.len();
    let _l3 = bid_track.len();
    let pos = START_FROM_AD_CAMPAIGN + index as usize;
    if ad_campaign[pos] != AD_CAMPAIGN_BID_STATE_READY {
        return Err(ProgramError::InvalidAccountData);
    }
    let pos_campaign_bid = START_FROM_AD_CAMPAIGN_BID_TRACKS + SPACE_IN_CAMPAIGN_BID_TRACK * index as usize;
    if ad_campaign_bid_tracks[pos_campaign_bid] != 1 {
        return Err(ProgramError::InvalidAccountData);
    }
    let ghost bt0 = bid_track@;
    let ghost t0 = ad_campaign_bid_tracks@;
    let bid_config = bid_config_from_bytes(bid_track, TO_BID_TRACK_AD_CONFIG);
    let mut total_views = get_u64(bid_track, TO_BID_TRACK_TOTAL_VIEWS);
    let mut total_clicks = get_u64(bid_track, TO_BID_TRACK_TOTAL_CLICKS);
    let views_in_day = get_u32(bid_track, TO_BID_TRACK_VIEWS_IN_DAY);
    let mut earned_money: u64 = 0;
    let id_bytes = identifier.as_slice();
    let mut click_new = false;
    if click > 0 {
        let click_bloom_start = START_FROM_BID_TRACK + START_FROM_BID_TRACK;
        let ghost before = bid_track@;
        click_new = bloom_insert(bid_track, click_bloom_start, id_bytes, bloom_bits);
        proof {
            lemma_bloom_add_frame(before, click_bloom_start as int, identifier@, bloom_bits, 11, 0, click_bloom_start as int);
        }
        if click_new {
            total_clicks = total_clicks + 1;
            put_u64(bid_track, TO_BID_TRACK_TOTAL_CLICKS, total_clicks);
            earned_money = earned_money + bid_config.budget_per_view;
        }
    }
    let mut view_new = false;
    if view > 0 {
        view_new = bloom_insert(bid_track, START_FROM_BID_TRACK, id_bytes, bloom_bits);
        if view_new {
            total_views = total_views + 1;
            put_u64(bid_track, TO_BID_TRACK_TOTAL_VIEWS, total_views);
            earned_money = earned_money + bid_config.budget_per_click;
            put_u32(bid_track, TO_BID_TRACK_VIEWS_IN_DAY, views_in_day + 1);
        }
    }
    proof {
        let v0 = read_u64(bt0, TO_BID_TRACK_TOTAL_VIEWS as int) as int;
        let c0 = read_u64(bt0, TO_BID_TRACK_TOTAL_CLICKS as int) as int;
        let pv = bid_config.budget_per_view as int;
        let pc = bid_config.budget_per_click as int;
        assert(total_views * pv <= (v0 + 1) * pv) by (nonlinear_arith)
            requires
                total_views <= v0 + 1,
                0 <= pv,
        ;
        assert(total_clicks * pc <= (c0 + 1) * pc) by (nonlinear_arith)
            requires
                total_clicks <= c0 + 1,
                0 <= pc,
        ;
    }
    let spent_budget = total_views * bid_config.budget_per_view + total_clicks * bid_config.budget_per_click;
    if spent_budget >= bid_config.budget {
        ad_campaign_bid_tracks.set(pos_campaign_bid + 1, 0);
    }
    if earned_money > 0 {
        let pos_to_last_view: usize = 18;
        put_u32(bid_track, pos_campaign_bid + pos_to_last_view, clock32);
        let ghost t1 = ad_campaign_bid_tracks@;
        proof {
            lemma_splice_disjoint(t0, 0, seq![], TO_AD_CAMPAIGN_BID_EARNED as int, 8);
            assert(t1.subrange(TO_AD_CAMPAIGN_BID_EARNED as int, TO_AD_CAMPAIGN_BID_EARNED + 8) =~= t0.subrange(TO_AD_CAMPAIGN_BID_EARNED as int, TO_AD_CAMPAIGN_BID_EARNED + 8));
        }
        let earned = get_u64(ad_campaign_bid_tracks, TO_AD_CAMPAIGN_BID_EARNED);
        put_u64(ad_campaign_bid_tracks, TO_AD_CAMPAIGN_BID_EARNED, earned + earned_money);
    }
    Ok(())
}

/// Closing a cash-out gives a ready bid its slot back in the ready
/// state.  It fails for a paused bid, whose cash-out state is the same code
/// as a ready one's, so closing makes it ready.
pub proof fn lemma_cashout_round_trip(state: u8)
    requires
        cashout_state(state) is Some,
        state != AD_CAMPAIGN_BID_STATE_PAUSED,
    ensures
        crate::bid_close::slot_after_settlement(cashout_state(state)->0) == Some(state),
{
}

/// A slot reserved for a new bid is in the creating state, the one
/// from which closing the bid's registration makes it ready.
pub proof fn lemma_reserved_slot_creating(s: Seq<u8>, index: u32)
    requires
        START_FROM_AD_CAMPAIGN + index < s.len(),
    ensures
        reserved_campaign(s, index).len() == s.len(),
        reserved_campaign(s, index)[START_FROM_AD_CAMPAIGN + index] == AD_CAMPAIGN_BID_STATE_CREATING,
{
    let changes = (read_u64(s, TO_AD_CAMPAIGN_CHANGE_COUNT as int) + 1) as u64;
    let needed = slots_needed(read_u32(s, TO_AD_CAMPAIGN_SPACES_BID as int), index) as u32;
    let living = (read_u32(s, TO_AD_CAMPAIGN_LIVING_BID as int) + 1) as u32;
    lemma_le_lengths(0, needed, changes);
    lemma_le_lengths(0, living, 0);
}

/// Reserving slot `index` of a campaign for a new bid counts one more
/// change and one more living bid, raises the number of slots to one past
/// the larger of the old number and `index + 1` (so it never falls and
/// always covers the slot), marks the slot as being created, and leaves
/// every other slot as it was.
pub proof fn lemma_reserved_campaign_reads_back(s: Seq<u8>, index: u32)
    requires
        START_FROM_AD_CAMPAIGN + index < s.len(),
        read_u64(s, TO_AD_CAMPAIGN_CHANGE_COUNT as int) < u64::MAX,
        read_u32(s, TO_AD_CAMPAIGN_LIVING_BID as int) < u32::MAX,
        slots_needed(read_u32(s, TO_AD_CAMPAIGN_SPACES_BID as int), index) <= u32::MAX,
    ensures
        ({
            let h = reserved_campaign(s, index);
            let spaces = read_u32(s, TO_AD_CAMPAIGN_SPACES_BID as int);
            &&& h.len() == s.len()
            &&& read_u64(h, TO_AD_CAMPAIGN_CHANGE_COUNT as int) == read_u64(s, TO_AD_CAMPAIGN_CHANGE_COUNT as int) + 1
            &&& read_u32(h, TO_AD_CAMPAIGN_LIVING_BID as int) == read_u32(s, TO_AD_CAMPAIGN_LIVING_BID as int) + 1
            &&& read_u32(h, TO_AD_CAMPAIGN_SPACES_BID as int) == (if spaces > index {
                spaces as int
            } else {
                index + 1
            }) + 1
            &&& read_u32(h, TO_AD_CAMPAIGN_SPACES_BID as int) > spaces
            &&& read_u32(h, TO_AD_CAMPAIGN_SPACES_BID as int) > index + 1
            &&& h[START_FROM_AD_CAMPAIGN + index] == AD_CAMPAIGN_BID_STATE_CREATING
            &&& forall|i: int|
                START_FROM_AD_CAMPAIGN <= i < s.len() && i != START_FROM_AD_CAMPAIGN + index ==> #[trigger] h[i]
                    == s[i]
        }),
{
    let changes = (read_u64(s, TO_AD_CAMPAIGN_CHANGE_COUNT as int) + 1) as u64;
    let needed = slots_needed(read_u32(s, TO_AD_CAMPAIGN_SPACES_BID as int), index) as u32;
    let living = (read_u32(s, TO_AD_CAMPAIGN_LIVING_BID as int) + 1) as u32;
    lemma_le_lengths(0, needed, changes);
    lemma_le_lengths(0, living, 0);
    let p = START_FROM_AD_CAMPAIGN + index;
    let st = seq![AD_CAMPAIGN_BID_STATE_CREATING];
    let h0 = splice(s, TO_AD_CAMPAIGN_CHANGE_COUNT as int, le64(changes));
    let h1 = splice(h0, p, st);
    let h2 = splice(h1, TO_AD_CAMPAIGN_SPACES_BID as int, le32(needed));
    let h3 = splice(h2, TO_AD_CAMPAIGN_LIVING_BID as int, le32(living));
    lemma_splice_basics(s, TO_AD_CAMPAIGN_CHANGE_COUNT as int, le64(changes));
    lemma_splice_basics(h0, p, st);
    lemma_splice_basics(h1, TO_AD_CAMPAIGN_SPACES_BID as int, le32(needed));
    lemma_splice_basics(h2, TO_AD_CAMPAIGN_LIVING_BID as int, le32(living));
    lemma_splice_disjoint(h0, p, st, TO_AD_CAMPAIGN_CHANGE_COUNT as int, 8);
    lemma_splice_disjoint(h1, TO_AD_CAMPAIGN_SPACES_BID as int, le32(needed), TO_AD_CAMPAIGN_CHANGE_COUNT as int, 8);
    lemma_splice_disjoint(h2, TO_AD_CAMPAIGN_LIVING_BID as int, le32(living), TO_AD_CAMPAIGN_CHANGE_COUNT as int, 8);
    lemma_splice_disjoint(h2, TO_AD_CAMPAIGN_LIVING_BID as int, le32(living), TO_AD_CAMPAIGN_SPACES_BID as int, 4);
    lemma_splice_disjoint(h1, TO_AD_CAMPAIGN_SPACES_BID as int, le32(needed), p, 1);
    lemma_splice_disjoint(h2, TO_AD_CAMPAIGN_LIVING_BID as int, le32(living), p, 1);
    assert(h3[p] == h3.subrange(p, p + 1)[0]);
    let n = s.len() - START_FROM_AD_CAMPAIGN;
    let c = START_FROM_AD_CAMPAIGN as int;
    lemma_splice_disjoint(s, TO_AD_CAMPAIGN_CHANGE_COUNT as int, le64(changes), c, n);
    lemma_splice_disjoint(h1, TO_AD_CAMPAIGN_SPACES_BID as int, le32(needed), c, n);
    lemma_splice_disjoint(h2, TO_AD_CAMPAIGN_LIVING_BID as int, le32(living), c, n);
    assert forall|i: int| START_FROM_AD_CAMPAIGN <= i < s.len() && i != p implies #[trigger] h3[i] == s[i] by {
        assert(h3[i] == h3.subrange(c, c + n)[i - c]);
        assert(h1[i] == h1.subrange(c, c + n)[i - c]);
        assert(h0[i] == h0.subrange(c, c + n)[i - c]);
        assert(s[i] == s.subrange(c, c + n)[i - c]);
        lemma_splice_disjoint(h0, p, st, i, 1);
        assert(h1[i] == h1.subrange(i, i + 1)[0]);
        assert(h0[i] == h0.subrange(i, i + 1)[0]);
    }
}

} // verus!

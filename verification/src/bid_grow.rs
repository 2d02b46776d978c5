//! Growing a new bid on the rollup: the registration its messenger carries
//! is applied to the campaign's bid-track account once, then the bid
//! track's bloom filters are grown step by step until they reach their size.
use crate::bids::{bloom_bytes, slots_needed, track_slot};
use crate::bytes::{
    get_u32, keys_equal, le32, le64, lemma_le_lengths, lemma_splice_basics, lemma_splice_disjoint, put_u32,
    put_u64, read_u32, read_u64, resize_data, resized, splice, write_bytes,
};
use crate::codec::{decode_update, piece_bytes, piece_to_bytes, spec_decode_update};
use crate::error::ProgramError;
use crate::layout::{
    MAX_ACCOUNT_GROWTH, MESSAGE_PAYLOAD_SIZE, MESSENGER_DELEGATED, MESSENGER_DELEGATED_PROCESSED,
    MESSENGER_DELEGATED_PROCESSING, MESSENGER_TO_PAYLOAD, MESSENGER_TO_STATE,
    SPACE_IN_CAMPAIGN_BID_TRACK, START_FROM_AD_CAMPAIGN_BID_TRACKS, START_FROM_BID_TRACK,
    TO_AD_CAMPAIGN_BID_TRACK_CHANGE_COUNT, TO_AD_CAMPAIGN_BID_TRACK_LIVING,
    TO_AD_CAMPAIGN_BID_TRACK_SPACES,
};
use crate::types::{AccountInfo, AdCampaignBidTrackPieceStruct, AdCreator, Pubkey, RollupUpdates, Store};
use crate::utils::pay_to_user;
use vstd::prelude::*;

verus! {

/// Who may grow a bid: the store's master manager, the ad creator, or the
/// ad creator's manager.
pub open spec fn may_grow(store: Store, ad_creator: AdCreator, creator: Pubkey) -> bool {
    creator@ == store.master_manager@ || creator@ == ad_creator.creator@ || ad_creator.creator_manager@
        == creator@
}

/// What the messenger asks for: nothing more once it is processed
/// (`Ok(None)`); otherwise, while it is delegated or being processed, its
/// payload must decode strictly (else `BorshIoError`) to the registration
/// of a bid for the campaign's bid-track account `tracks` (else
/// `InvalidAccountData`).  Any other state is `InvalidAccountData`.
pub open spec fn grow_registration(messenger: Seq<u8>, tracks: Pubkey) -> Result<
    Option<RollupUpdates>,
    ProgramError,
> {
    let state = messenger[MESSENGER_TO_STATE as int];
    if state == MESSENGER_DELEGATED_PROCESSED {
        Ok(None)
    } else if state != MESSENGER_DELEGATED && state != MESSENGER_DELEGATED_PROCESSING {
        Err(ProgramError::InvalidAccountData)
    } else {
        match spec_decode_update(
            messenger.subrange(MESSENGER_TO_PAYLOAD as int, MESSENGER_TO_PAYLOAD + MESSAGE_PAYLOAD_SIZE),
        ) {
            None => Err(ProgramError::BorshIoError),
            Some(u) => match u {
                RollupUpdates::RegisterBid { account, .. } => if account@ == tracks@ {
                    Ok(Some(u))
                } else {
                    Err(ProgramError::InvalidAccountData)
                },
                _ => Err(ProgramError::InvalidAccountData),
            },
        }
    }
}

/// Size of the campaign's bid-track account once slot `index` is in use.
pub open spec fn tracks_size_for(tracks: Seq<u8>, index: u32) -> int {
    START_FROM_AD_CAMPAIGN_BID_TRACKS + SPACE_IN_CAMPAIGN_BID_TRACK * slots_needed(
        read_u32(tracks, TO_AD_CAMPAIGN_BID_TRACK_SPACES as int),
        index,
    )
}

/// The slot a registration opens: live, with budget, at the bid's prices,
/// never viewed.
pub open spec fn opened_piece(per_view: u64, per_click: u64) -> AdCampaignBidTrackPieceStruct {
    AdCampaignBidTrackPieceStruct {
        state: 1,
        has_budget: 1,
        budget_per_view: per_view,
        budget_per_click: per_click,
        last_view: 0,
    }
}

/// The campaign's bid-track account after a registration is applied: sized
/// for the slot, the slot opened, the number of slots raised to cover it,
/// one more living bid, and the change counter of the registration.
pub open spec fn registered_tracks(
    tracks: Seq<u8>,
    index: u32,
    changes_count: u64,
    per_view: u64,
    per_click: u64,
) -> Seq<u8> {
    let t1 = resized(tracks, tracks_size_for(tracks, index) as nat);
    let t2 = splice(t1, track_slot(index), piece_bytes(opened_piece(per_view, per_click)));
    let spaces = read_u32(tracks, TO_AD_CAMPAIGN_BID_TRACK_SPACES as int);
    let living = read_u32(tracks, TO_AD_CAMPAIGN_BID_TRACK_LIVING as int);
    let t3 = if index + 1 > spaces {
        splice(t2, TO_AD_CAMPAIGN_BID_TRACK_SPACES as int, le32((index + 1) as u32))
    } else {
        t2
    };
    splice(
        splice(t3, TO_AD_CAMPAIGN_BID_TRACK_LIVING as int, le32((living + 1) as u32)),
        TO_AD_CAMPAIGN_BID_TRACK_CHANGE_COUNT as int,
        le64(changes_count),
    )
}

/// Registering a bid opens its slot and never loses one: afterwards the
/// number of slots is the larger of what it was and the slot's index plus
/// one, one more bid lives, the change counter is the registration's, the
/// account is sized for the slot, and the slot holds a live, funded piece
/// at the bid's prices.
pub proof fn lemma_registration_effect(tracks: Seq<u8>, index: u32, changes_count: u64, per_view: u64, per_click: u64)
    requires
        tracks.len() >= START_FROM_AD_CAMPAIGN_BID_TRACKS,
        read_u32(tracks, TO_AD_CAMPAIGN_BID_TRACK_LIVING as int) < u32::MAX,
        index < u32::MAX,
    ensures
        ({
            let t = registered_tracks(tracks, index, changes_count, per_view, per_click);
            let spaces = read_u32(tracks, TO_AD_CAMPAIGN_BID_TRACK_SPACES as int);
            let slot = track_slot(index);
            &&& t.len() == tracks_size_for(tracks, index)
            &&& read_u32(t, TO_AD_CAMPAIGN_BID_TRACK_SPACES as int) == if index + 1 > spaces {
                (index + 1) as u32
            } else {
                spaces
            }
            &&& read_u32(t, TO_AD_CAMPAIGN_BID_TRACK_SPACES as int) >= spaces
            &&& read_u32(t, TO_AD_CAMPAIGN_BID_TRACK_LIVING as int) == read_u32(
                tracks,
                TO_AD_CAMPAIGN_BID_TRACK_LIVING as int,
            ) + 1
            &&& read_u64(t, TO_AD_CAMPAIGN_BID_TRACK_CHANGE_COUNT as int) == changes_count
            &&& t[slot] == 1
            &&& t[slot + 1] == 1
            &&& read_u64(t, slot + 2) == per_view
            &&& read_u64(t, slot + 10) == per_click
            &&& t.len() == START_FROM_AD_CAMPAIGN_BID_TRACKS + SPACE_IN_CAMPAIGN_BID_TRACK * ((if spaces > index {
                spaces as int
            } else {
                index + 1
            }) + 1)
            &&& forall|i: int|
                0 <= i < t.len() && !(TO_AD_CAMPAIGN_BID_TRACK_CHANGE_COUNT <= i < TO_AD_CAMPAIGN_BID_TRACK_CHANGE_COUNT
                    + 8) && !(TO_AD_CAMPAIGN_BID_TRACK_LIVING <= i < START_FROM_AD_CAMPAIGN_BID_TRACKS) && !(slot <= i
                    < slot + SPACE_IN_CAMPAIGN_BID_TRACK) ==> #[trigger] t[i] == (if i < tracks.len() {
                    tracks[i]
                } else {
                    0u8
                })
        }),
{
    let spaces = read_u32(tracks, TO_AD_CAMPAIGN_BID_TRACK_SPACES as int);
    let living = read_u32(tracks, TO_AD_CAMPAIGN_BID_TRACK_LIVING as int);
    let size = tracks_size_for(tracks, index);
    let slot = track_slot(index);
    let t1 = resized(tracks, size as nat);
    assert(t1.len() == size);
    assert(t1.subrange(81, 118) =~= tracks.subrange(81, 118));
    assert(t1.subrange(114, 118) =~= tracks.subrange(114, 118));
    assert(t1.subrange(110, 114) =~= tracks.subrange(110, 114));
    let pb = piece_bytes(opened_piece(per_view, per_click));
    lemma_le_lengths(0, 0, per_view);
    lemma_le_lengths(0, 0, per_click);
    lemma_le_lengths(0, (index + 1) as u32, changes_count);
    lemma_le_lengths(0, (living + 1) as u32, 0);
    assert(pb.len() == 22);
    assert(slot + 22 <= size);
    let t2 = splice(t1, slot, pb);
    lemma_splice_basics(t1, slot, pb);
    lemma_splice_disjoint(t1, slot, pb, 110, 4);
    lemma_splice_disjoint(t1, slot, pb, 114, 4);
    let t3 = if index + 1 > spaces {
        splice(t2, TO_AD_CAMPAIGN_BID_TRACK_SPACES as int, le32((index + 1) as u32))
    } else {
        t2
    };
    if index + 1 > spaces {
        lemma_splice_basics(t2, TO_AD_CAMPAIGN_BID_TRACK_SPACES as int, le32((index + 1) as u32));
        lemma_splice_disjoint(t2, TO_AD_CAMPAIGN_BID_TRACK_SPACES as int, le32((index + 1) as u32), 110, 4);
        lemma_splice_disjoint(t2, TO_AD_CAMPAIGN_BID_TRACK_SPACES as int, le32((index + 1) as u32), slot, 22);
    }
    assert(t3.len() == size);
    assert(t3.subrange(slot, slot + 22) == pb);
    let t4 = splice(t3, TO_AD_CAMPAIGN_BID_TRACK_LIVING as int, le32((living + 1) as u32));
    lemma_splice_basics(t3, TO_AD_CAMPAIGN_BID_TRACK_LIVING as int, le32((living + 1) as u32));
    lemma_splice_disjoint(t3, TO_AD_CAMPAIGN_BID_TRACK_LIVING as int, le32((living + 1) as u32), 114, 4);
    lemma_splice_disjoint(t3, TO_AD_CAMPAIGN_BID_TRACK_LIVING as int, le32((living + 1) as u32), slot, 22);
    let t5 = splice(t4, TO_AD_CAMPAIGN_BID_TRACK_CHANGE_COUNT as int, le64(changes_count));
    lemma_splice_basics(t4, TO_AD_CAMPAIGN_BID_TRACK_CHANGE_COUNT as int, le64(changes_count));
    lemma_splice_disjoint(t4, TO_AD_CAMPAIGN_BID_TRACK_CHANGE_COUNT as int, le64(changes_count), 110, 4);
    lemma_splice_disjoint(t4, TO_AD_CAMPAIGN_BID_TRACK_CHANGE_COUNT as int, le64(changes_count), 114, 4);
    lemma_splice_disjoint(t4, TO_AD_CAMPAIGN_BID_TRACK_CHANGE_COUNT as int, le64(changes_count), slot, 22);
    assert(t5.subrange(slot, slot + 22) == pb);
    assert(t5[slot] == t5.subrange(slot, slot + 22)[0]);
    assert(t5[slot + 1] == t5.subrange(slot, slot + 22)[1]);
    assert(t5.subrange(slot + 2, slot + 10) =~= t5.subrange(slot, slot + 22).subrange(2, 10));
    assert(pb.subrange(2, 10) =~= le64(per_view));
    assert(t5.subrange(slot + 10, slot + 18) =~= t5.subrange(slot, slot + 22).subrange(10, 18));
    assert(pb.subrange(10, 18) =~= le64(per_click));
    assert(t5 == registered_tracks(tracks, index, changes_count, per_view, per_click));
    assert(t5.subrange(110, 114) == le32((living + 1) as u32));
    assert(read_u32(t5, TO_AD_CAMPAIGN_BID_TRACK_LIVING as int) == living + 1);
    assert(t5.subrange(81, 89) == le64(changes_count));
    assert(read_u64(t5, TO_AD_CAMPAIGN_BID_TRACK_CHANGE_COUNT as int) == changes_count);
    if index + 1 > spaces {
        assert(t5.subrange(114, 118) == le32((index + 1) as u32));
    } else {
        assert(t5.subrange(114, 118) == tracks.subrange(114, 118));
        assert(read_u32(t5, TO_AD_CAMPAIGN_BID_TRACK_SPACES as int) == spaces);
    }
    assert(read_u64(t5, slot + 2) == per_view);
    assert(read_u64(t5, slot + 10) == per_click);
    let l8 = le64(changes_count);
    let lv = le32((living + 1) as u32);
    let ls = le32((index + 1) as u32);
    assert forall|i: int|
        0 <= i < t5.len() && !(TO_AD_CAMPAIGN_BID_TRACK_CHANGE_COUNT <= i < TO_AD_CAMPAIGN_BID_TRACK_CHANGE_COUNT + 8)
            && !(TO_AD_CAMPAIGN_BID_TRACK_LIVING <= i < START_FROM_AD_CAMPAIGN_BID_TRACKS) && !(slot <= i < slot
            + SPACE_IN_CAMPAIGN_BID_TRACK) implies #[trigger] t5[i] == (if i < tracks.len() {
        tracks[i]
    } else {
        0u8
    }) by {
        lemma_splice_disjoint(t4, TO_AD_CAMPAIGN_BID_TRACK_CHANGE_COUNT as int, l8, i, 1);
        lemma_splice_disjoint(t3, TO_AD_CAMPAIGN_BID_TRACK_LIVING as int, lv, i, 1);
        lemma_splice_disjoint(t1, slot, pb, i, 1);
        assert(t5[i] == t5.subrange(i, i + 1)[0]);
        assert(t4[i] == t4.subrange(i, i + 1)[0]);
        assert(t3[i] == t3.subrange(i, i + 1)[0]);
        assert(t2[i] == t2.subrange(i, i + 1)[0]);
        assert(t1[i] == t1.subrange(i, i + 1)[0]);
        if index + 1 > spaces {
            lemma_splice_disjoint(t2, TO_AD_CAMPAIGN_BID_TRACK_SPACES as int, ls, i, 1);
        }
    }
}

/// Whether the slot is already in use in the account as it will be sized.
pub open spec fn slot_taken(tracks: Seq<u8>, index: u32) -> bool {
    track_slot(index) < tracks.len() && tracks[track_slot(index)] != 0
}

/// The size a bid track grows to in one step, and whether its filters are
/// then complete: the filters grow by at most one growth step at a time.
pub open spec fn bloom_growth(size: int, bytes_in_bloom: int) -> (int, bool) {
    let now = size - START_FROM_BID_TRACK;
    if bytes_in_bloom > now {
        if bytes_in_bloom - now > MAX_ACCOUNT_GROWTH {
            (size + MAX_ACCOUNT_GROWTH, false)
        } else {
            (START_FROM_BID_TRACK + bytes_in_bloom, true)
        }
    } else {
        (size, true)
    }
}

/// The outcome of a growth step.
#[derive(Debug, Clone, Copy, PartialEq, Eq, Structural)]
pub enum GrowStep {
    /// The messenger was already processed; nothing changed.
    AlreadyProcessed,
    /// The bid track grew; `done` when its filters are complete, and the
    /// messenger is then to be committed back to the base layer.
    Grown { done: bool },
}

/// Takes the registration's fields; the variant is known to be a registration.
fn registration_fields(u: &RollupUpdates) -> (r: (u32, u64, u64, u64))
    requires
        u is RegisterBid,
    ensures
        match *u {
            RollupUpdates::RegisterBid { index, changes_count, budget_per_view, budget_per_click, .. } => r == (
                index,
                changes_count,
                budget_per_view,
                budget_per_click,
            ),
            _ => false,
        },
{
    match u {
        RollupUpdates::RegisterBid { index, changes_count, budget_per_view, budget_per_click, .. } => (
            *index,
            *changes_count,
            *budget_per_view,
            *budget_per_click,
        ),
        _ => (0, 0, 0, 0),
    }
}

fn read_registration(messenger: &Vec<u8>, tracks: &Pubkey) -> (r: Result<Option<RollupUpdates>, ProgramError>)
    requires
        messenger@.len() > MESSENGER_TO_STATE,
        messenger@[MESSENGER_TO_STATE as int] == MESSENGER_DELEGATED || messenger@[MESSENGER_TO_STATE as int]
            == MESSENGER_DELEGATED_PROCESSING ==> messenger@.len() >= MESSENGER_TO_PAYLOAD + MESSAGE_PAYLOAD_SIZE,
    ensures
        r == grow_registration(messenger@, *tracks),
{
    let state = messenger[MESSENGER_TO_STATE];
    if state == MESSENGER_DELEGATED_PROCESSED {
        return Ok(None);
    }
    if state != MESSENGER_DELEGATED && state != MESSENGER_DELEGATED_PROCESSING {
        return Err(ProgramError::InvalidAccountData);
    }
    match decode_update(messenger, MESSENGER_TO_PAYLOAD, MESSAGE_PAYLOAD_SIZE) {
        None => Err(ProgramError::BorshIoError),
        Some(u) => match u {
            RollupUpdates::RegisterBid { account, .. } => if keys_equal(&account, tracks) {
                Ok(Some(u))
            } else {
                Err(ProgramError::InvalidAccountData)
            },
            _ => Err(ProgramError::InvalidAccountData),
        },
    }
}

/// Whether a growth step stays on the inputs the program handles: the
/// preconditions of [`grow_ad_track`]; on the others the program fails
/// outright.
pub fn grow_fits(
    store: &Store,
    ad_creator: &AdCreator,
    creator: &Pubkey,
    bid_messenger: &AccountInfo,
    bid_track: &AccountInfo,
    ad_campaign_bid_tracks: &AccountInfo,
    messenger_min_balance: u64,
) -> (ok: bool)
    ensures
        ok == ({
            &&& may_grow(*store, *ad_creator, *creator) ==> {
                let state = bid_messenger.data@[MESSENGER_TO_STATE as int];
                &&& bid_messenger.data@.len() > MESSENGER_TO_STATE
                &&& state == MESSENGER_DELEGATED || state == MESSENGER_DELEGATED_PROCESSING
                    ==> bid_messenger.data@.len() >= MESSENGER_TO_PAYLOAD + MESSAGE_PAYLOAD_SIZE
            }
            &&& may_grow(*store, *ad_creator, *creator) ==> match grow_registration(
                bid_messenger.data@,
                ad_campaign_bid_tracks.key,
            ) {
                Ok(Some(RollupUpdates::RegisterBid { index, .. })) => {
                    let t0 = ad_campaign_bid_tracks.data@;
                    let first = bid_messenger.data@[MESSENGER_TO_STATE as int] == MESSENGER_DELEGATED;
                    let applies = tracks_size_for(t0, index) <= t0.len() + MAX_ACCOUNT_GROWTH && !slot_taken(
                        t0,
                        index,
                    );
                    &&& first ==> {
                        &&& bid_messenger.lamports >= messenger_min_balance
                        &&& ad_campaign_bid_tracks.lamports + (bid_messenger.lamports - messenger_min_balance)
                            <= u64::MAX
                        &&& t0.len() >= START_FROM_AD_CAMPAIGN_BID_TRACKS
                        &&& slots_needed(read_u32(t0, TO_AD_CAMPAIGN_BID_TRACK_SPACES as int), index) <= u32::MAX
                        &&& tracks_size_for(t0, index) <= usize::MAX
                        &&& applies ==> read_u32(t0, TO_AD_CAMPAIGN_BID_TRACK_LIVING as int) < u32::MAX
                    }
                    &&& (!first || applies) ==> {
                        &&& bid_track.data@.len() >= START_FROM_BID_TRACK
                        &&& bid_track.data@.len() + MAX_ACCOUNT_GROWTH <= usize::MAX
                    }
                },
                _ => true,
            }
        }),
{
    if !keys_equal(creator, &store.master_manager) && !keys_equal(creator, &ad_creator.creator)
        && !keys_equal(&ad_creator.creator_manager, creator) {
        return true;
    }
    let m = &bid_messenger.data;
    if m.len() <= MESSENGER_TO_STATE {
        return false;
    }
    let state = m[MESSENGER_TO_STATE];
    if (state == MESSENGER_DELEGATED || state == MESSENGER_DELEGATED_PROCESSING) && m.len() < MESSENGER_TO_PAYLOAD
        + MESSAGE_PAYLOAD_SIZE {
        return false;
    }
    let update = match read_registration(m, &ad_campaign_bid_tracks.key) {
        Ok(Some(u)) => u,
        _ => {
            return true;
        },
    };
    let (index, _changes, _per_view, _per_click) = registration_fields(&update);
    let first = state == MESSENGER_DELEGATED;
    let t0 = &ad_campaign_bid_tracks.data;
    let mut applies = false;
    if first {
        if bid_messenger.lamports < messenger_min_balance {
            return false;
        }
        if ad_campaign_bid_tracks.lamports as u128 + (bid_messenger.lamports - messenger_min_balance) as u128
            > u64::MAX as u128 {
            return false;
        }
        if t0.len() < START_FROM_AD_CAMPAIGN_BID_TRACKS {
            return false;
        }
        let spaces = get_u32(t0, TO_AD_CAMPAIGN_BID_TRACK_SPACES);
        let slots: u64 = (if spaces > index {
            spaces as u64
        } else {
            index as u64 + 1
        }) + 1;
        if slots > u32::MAX as u64 {
            return false;
        }
        proof {
            assert(22 * (slots as int) <= 22 * 0xffff_ffff) by (nonlinear_arith)
                requires
                    slots <= 0xffff_ffff,
            ;
            assert(22 * (index as int) <= 22 * 0xffff_ffff) by (nonlinear_arith)
                requires
                    index <= 0xffff_ffff,
            ;
        }
        let size: u64 = START_FROM_AD_CAMPAIGN_BID_TRACKS as u64 + SPACE_IN_CAMPAIGN_BID_TRACK as u64 * slots;
        if size as u128 > usize::MAX as u128 {
            return false;
        }
        let position: u64 = START_FROM_AD_CAMPAIGN_BID_TRACKS as u64 + SPACE_IN_CAMPAIGN_BID_TRACK as u64
            * index as u64;
        let taken = position < t0.len() as u64 && t0[position as usize] != 0;
        applies = size as u128 <= t0.len() as u128 + MAX_ACCOUNT_GROWTH as u128 && !taken;
        if applies && get_u32(t0, TO_AD_CAMPAIGN_BID_TRACK_LIVING) == u32::MAX {
            return false;
        }
    }
    if !first || applies {
        if bid_track.data.len() < START_FROM_BID_TRACK {
            return false;
        }
        if bid_track.data.len() as u128 + MAX_ACCOUNT_GROWTH as u128 > usize::MAX as u128 {
            return false;
        }
    }
    true
}

/// One growth step of a new bid on the rollup, by the store's master
/// manager, the ad creator or its manager (anyone else:
/// `InvalidAccountData`).  A processed messenger ends here with nothing
/// changed.  Otherwise the messenger's registration is read (see
/// [`grow_registration`]).  The first time (messenger still delegated) it is
/// applied: the messenger's lamports above `messenger_min_balance` pay the
/// bid-track account, which is resized for the slot (more than one growth
/// step: `InvalidRealloc`) and records the slot (already in use:
/// `InvalidAccountData`).  Then the bid track grows towards the size of
/// filters of `bloom_bits` bits (see [`bloom_growth`]); when they are
/// complete the messenger is processed, else it stays being processed.  An
/// error changes nothing.
pub fn grow_ad_track(
    store: &Store,
    ad_creator: &AdCreator,
    creator: &Pubkey,
    bid_messenger: &mut AccountInfo,
    bid_track: &mut AccountInfo,
    ad_campaign_bid_tracks: &mut AccountInfo,
    messenger_min_balance: u64,
    bloom_bits: usize,
) -> (r: Result<GrowStep, ProgramError>)
    requires
        may_grow(*store, *ad_creator, *creator) ==> {
            let state = old(bid_messenger).data@[MESSENGER_TO_STATE as int];
            &&& old(bid_messenger).data@.len() > MESSENGER_TO_STATE
            &&& state == MESSENGER_DELEGATED || state == MESSENGER_DELEGATED_PROCESSING ==> old(
                bid_messenger,
            ).data@.len() >= MESSENGER_TO_PAYLOAD + MESSAGE_PAYLOAD_SIZE
        },
        may_grow(*store, *ad_creator, *creator) ==> match grow_registration(
            old(bid_messenger).data@,
            old(ad_campaign_bid_tracks).key,
        ) {
            Ok(Some(RollupUpdates::RegisterBid { index, .. })) => {
                let t0 = old(ad_campaign_bid_tracks).data@;
                let first = old(bid_messenger).data@[MESSENGER_TO_STATE as int] == MESSENGER_DELEGATED;
                let applies = tracks_size_for(t0, index) <= t0.len() + MAX_ACCOUNT_GROWTH && !slot_taken(t0, index);
                &&& first ==> {
                    &&& old(bid_messenger).lamports >= messenger_min_balance
                    &&& old(ad_campaign_bid_tracks).lamports + (old(bid_messenger).lamports - messenger_min_balance)
                        <= u64::MAX
                    &&& t0.len() >= START_FROM_AD_CAMPAIGN_BID_TRACKS
                    &&& slots_needed(read_u32(t0, TO_AD_CAMPAIGN_BID_TRACK_SPACES as int), index) <= u32::MAX
                    &&& tracks_size_for(t0, index) <= usize::MAX
                    &&& applies ==> read_u32(t0, TO_AD_CAMPAIGN_BID_TRACK_LIVING as int) < u32::MAX
                }
                &&& (!first || applies) ==> {
                    &&& old(bid_track).data@.len() >= START_FROM_BID_TRACK
                    &&& old(bid_track).data@.len() + MAX_ACCOUNT_GROWTH <= usize::MAX
                }
            },
            _ => true,
        },
    ensures
        !may_grow(*store, *ad_creator, *creator) ==> r == Err::<GrowStep, ProgramError>(
            ProgramError::InvalidAccountData,
        ),
        may_grow(*store, *ad_creator, *creator) ==> match grow_registration(
            old(bid_messenger).data@,
            old(ad_campaign_bid_tracks).key,
        ) {
            Err(e) => r == Err::<GrowStep, ProgramError>(e),
            Ok(None) => r == Ok::<GrowStep, ProgramError>(GrowStep::AlreadyProcessed),
            Ok(Some(RollupUpdates::RegisterBid { index, changes_count, budget_per_view, budget_per_click, .. })) => {
                let m0 = *old(bid_messenger);
                let t0 = *old(ad_campaign_bid_tracks);
                let first = m0.data@[MESSENGER_TO_STATE as int] == MESSENGER_DELEGATED;
                let (size, done) = bloom_growth(old(bid_track).data@.len() as int, bloom_bytes(bloom_bits));
                let paid: int = if first {
                    m0.lamports - messenger_min_balance
                } else {
                    0
                };
                if first && tracks_size_for(t0.data@, index) > t0.data@.len() + MAX_ACCOUNT_GROWTH {
                    r == Err::<GrowStep, ProgramError>(ProgramError::InvalidRealloc)
                } else if first && slot_taken(t0.data@, index) {
                    r == Err::<GrowStep, ProgramError>(ProgramError::InvalidAccountData)
                } else {
                    &&& r == Ok::<GrowStep, ProgramError>(GrowStep::Grown { done })
                    &&& final(ad_campaign_bid_tracks).data@ == (if first {
                        registered_tracks(t0.data@, index, changes_count, budget_per_view, budget_per_click)
                    } else {
                        t0.data@
                    })
                    &&& final(ad_campaign_bid_tracks).lamports == t0.lamports + paid
                    &&& final(ad_campaign_bid_tracks).key == t0.key
                    &&& final(bid_messenger).lamports == m0.lamports - paid
                    &&& final(bid_messenger).key == m0.key
                    &&& final(bid_messenger).data@ == (if done {
                        m0.data@.update(MESSENGER_TO_STATE as int, MESSENGER_DELEGATED_PROCESSED)
                    } else {
                        m0.data@.update(MESSENGER_TO_STATE as int, MESSENGER_DELEGATED_PROCESSING)
                    })
                    &&& final(bid_track).data@ == resized(old(bid_track).data@, size as nat)
                    &&& final(bid_track).key == old(bid_track).key
                    &&& final(bid_track).lamports == old(bid_track).lamports
                    &&& final(bid_messenger).lamports + final(ad_campaign_bid_tracks).lamports
                        == m0.lamports + t0.lamports
                }
            },
            Ok(Some(_)) => false,
        },
        r is Err || r == Ok::<GrowStep, ProgramError>(GrowStep::AlreadyProcessed) ==> {
            &&& *final(bid_messenger) == *old(bid_messenger)
            &&& *final(bid_track) == *old(bid_track)
            &&& *final(ad_campaign_bid_tracks) == *old(ad_campaign_bid_tracks)
        },
{
    if !keys_equal(creator, &store.master_manager) && !keys_equal(creator, &ad_creator.creator)
        && !keys_equal(&ad_creator.creator_manager, creator) {
        return Err(ProgramError::InvalidAccountData);
    }
    let update = match read_registration(&bid_messenger.data, &ad_campaign_bid_tracks.key) {
        Err(e) => {
            return Err(e);
        },
        Ok(None) => {
            return Ok(GrowStep::AlreadyProcessed);
        },
        Ok(Some(u)) => u,
    };
    let (index, changes_count, per_view, per_click) = registration_fields(&update);
    let first_time = bid_messenger.data[MESSENGER_TO_STATE] == MESSENGER_DELEGATED;
    let ghost t0 = ad_campaign_bid_tracks.data@;
    if first_time {
        let spaces = get_u32(&ad_campaign_bid_tracks.data, TO_AD_CAMPAIGN_BID_TRACK_SPACES);
        let max_space_needed: u32 = (if spaces > index {
            spaces
        } else {
            index + 1
        }) + 1;
        let total_bytes = START_FROM_AD_CAMPAIGN_BID_TRACKS + SPACE_IN_CAMPAIGN_BID_TRACK
            * max_space_needed as usize;
        let len = ad_campaign_bid_tracks.data.len();
        if total_bytes > len && total_bytes - len > MAX_ACCOUNT_GROWTH {
            return Err(ProgramError::InvalidRealloc);
        }
        let position = START_FROM_AD_CAMPAIGN_BID_TRACKS + SPACE_IN_CAMPAIGN_BID_TRACK * index as usize;
        if position < len && ad_campaign_bid_tracks.data[position] != 0 {
            return Err(ProgramError::InvalidAccountData);
        }
        let dif_money = bid_messenger.lamports - messenger_min_balance;
        if dif_money > 0 {
            let _ = pay_to_user(bid_messenger, ad_campaign_bid_tracks, dif_money);
        }
        let living = get_u32(&ad_campaign_bid_tracks.data, TO_AD_CAMPAIGN_BID_TRACK_LIVING);
        resize_data(&mut ad_campaign_bid_tracks.data, total_bytes);
        let ghost t1 = ad_campaign_bid_tracks.data@;
        let piece = AdCampaignBidTrackPieceStruct {
            state: 1,
            has_budget: 1,
            budget_per_view: per_view,
            budget_per_click: per_click,
            last_view: 0,
        };
        let bytes = piece_to_bytes(&piece);
        write_bytes(&mut ad_campaign_bid_tracks.data, position, bytes.as_slice());
        proof {
            assert(t1.subrange(TO_AD_CAMPAIGN_BID_TRACK_LIVING as int, TO_AD_CAMPAIGN_BID_TRACK_LIVING + 4)
                =~= t0.subrange(TO_AD_CAMPAIGN_BID_TRACK_LIVING as int, TO_AD_CAMPAIGN_BID_TRACK_LIVING + 4));
        }
        if index + 1 > spaces {
            put_u32(&mut ad_campaign_bid_tracks.data, TO_AD_CAMPAIGN_BID_TRACK_SPACES, index + 1);
        }
        put_u32(&mut ad_campaign_bid_tracks.data, TO_AD_CAMPAIGN_BID_TRACK_LIVING, living + 1);
        put_u64(&mut ad_campaign_bid_tracks.data, TO_AD_CAMPAIGN_BID_TRACK_CHANGE_COUNT, changes_count);
    }
    let bid_track_size = bid_track.data.len();
    let bytes_in_bloom: usize = (bloom_bits / 8) * 2;
    let bloom_space_now = bid_track_size - START_FROM_BID_TRACK;
    let (total_bloom_space, is_done) = if bytes_in_bloom > bloom_space_now {
        let missing = bytes_in_bloom - bloom_space_now;
        if missing > MAX_ACCOUNT_GROWTH {
            (bloom_space_now + MAX_ACCOUNT_GROWTH, false)
        } else {
            (bloom_space_now + missing, true)
        }
    } else {
        (bloom_space_now, true)
    };
    resize_data(&mut bid_track.data, START_FROM_BID_TRACK + total_bloom_space);
    if is_done {
        bid_messenger.data.set(MESSENGER_TO_STATE, MESSENGER_DELEGATED_PROCESSED);
    } else if first_time {
        bid_messenger.data.set(MESSENGER_TO_STATE, MESSENGER_DELEGATED_PROCESSING);
    }
    proof {
        if !is_done && !first_time {
            assert(bid_messenger.data@ =~= old(bid_messenger).data@.update(
                MESSENGER_TO_STATE as int,
                MESSENGER_DELEGATED_PROCESSING,
            ));
        }
    }
    Ok(GrowStep::Grown { done: is_done })
}

/// Growing a bid track makes progress and stops at the filters' size.
/// A step adds at most one growth step of bytes; a step that completes the
/// filters leaves the account at least as large as they need; one that
/// does not adds a full growth step and leaves them still short.
pub proof fn lemma_bloom_growth_progress(size: int, bytes_in_bloom: int)
    requires
        size >= START_FROM_BID_TRACK,
        bytes_in_bloom >= 0,
    ensures
        ({
            let (next, done) = bloom_growth(size, bytes_in_bloom);
            &&& size <= next <= size + MAX_ACCOUNT_GROWTH
            &&& done ==> next >= START_FROM_BID_TRACK + bytes_in_bloom
            &&& done ==> (next == size || next == START_FROM_BID_TRACK + bytes_in_bloom)
            &&& !done ==> next == size + MAX_ACCOUNT_GROWTH && next < START_FROM_BID_TRACK + bytes_in_bloom
        }),
{
}

} // verus!

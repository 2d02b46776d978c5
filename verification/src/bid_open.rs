//! Opening a bid on an ad space: the campaign slot, the bid track, the
//! messenger that registers the bid on the rollup, and the bid's NFT.
use crate::bids::{
    bid_on_space_plan, bid_track_header, bloom_bytes, messenger_record, reserve_bid_slot,
    reserved_campaign, slots_needed, write_bid_track_header, write_messenger_record, BidSlotReservation,
    BidSpacePlan,
};
use crate::bytes::{get_u32, read_u32, read_u64, resize_account, resized, zeros};
use crate::codec::{lemma_update_bytes_shape, read_bid_config, REGISTER_BID_SIZE};
use crate::error::ProgramError;
use crate::layout::{
    MAX_ACCOUNT_GROWTH, MESSENGER_DELEGATED, MESSENGER_TO_UPDATES_WRITE, MIN_ROLLUP_MESSENGER,
    SPACE_IN_CAMPAIGN_BID_TRACK,
    START_FROM_AD_CAMPAIGN, START_FROM_BID_TRACK, TO_AD_CAMPAIGN_CHANGE_COUNT, TO_BID_TRACK_AD_CONFIG,
    TO_BID_TRACK_CAMPAIGN_BID_INDEX,
    TO_AD_CAMPAIGN_CONFIG_CURRENCY, TO_AD_CAMPAIGN_LIVING_BID, TO_AD_CAMPAIGN_SPACES_BID,
};
use crate::metadata::{
    bid_nft_uri, bid_uri, collection_nft, collection_nft_fields, creator_list, creators_for,
    nth_symbol, nth_symbol_string,
};
use crate::pda::{ad_creator_address, ad_creator_seeds, pda};
use crate::types::{AccountInfo, AdSpot, AssetBundler, BidConfig, MetadataArgs, Pubkey, RollupUpdates, Store};
use vstd::prelude::*;

verus! {

/// The update a new bid's messenger carries to the rollup.
pub open spec fn register_update(tracks: Pubkey, changes_count: u64, index: u32, cfg: BidConfig) -> RollupUpdates {
    RollupUpdates::RegisterBid {
        account: tracks,
        changes_count,
        index,
        budget: cfg.budget,
        budget_per_click: cfg.budget_per_click,
        budget_per_view: cfg.budget_per_view,
    }
}

/// A bid's NFT and the ad-creator account it names.
#[derive(Debug, Clone)]
pub struct BidNft {
    pub ad_creator: Pubkey,
    pub metadata: MetadataArgs,
}

/// What a bid's NFT is: named "Bid V0", with the slot's symbol, the image
/// of the bundler stamped with the time, and as creators the bidder (whole
/// share), the bidder's ad-creator account, the bid track and the campaign.
pub open spec fn bid_nft(
    nft: BidNft,
    creator: Pubkey,
    bid_track: Pubkey,
    ad_campaign: Pubkey,
    collection_mint: Pubkey,
    index: u32,
    bundler: AssetBundler,
    clock32: u32,
) -> bool {
    collection_nft_fields(
        nft.metadata,
        "Bid V0"@,
        nth_symbol(index as u64),
        bid_uri(bundler, clock32),
        creator_list(creator, seq![nft.ad_creator, bid_track, ad_campaign]),
        collection_mint,
    )
}

/// Builds a bid's NFT (see [`bid_nft`]); the ad-creator account is derived
/// from the bidder and the store, and seeds that give no address are
/// `InvalidSeeds`.
pub fn bid_nft_metadata(
    store: &Store,
    creator: &Pubkey,
    bid_track: &Pubkey,
    ad_campaign: &Pubkey,
    collection_mint: &Pubkey,
    index: u32,
    asset_bundler: &AssetBundler,
    clock32: u32,
) -> (r: Result<BidNft, ProgramError>)
    ensures
        match pda(ad_creator_seeds(*creator, store.store_hash)) {
            Some(k) => r matches Ok(nft) && nft.ad_creator@ == k && bid_nft(
                nft,
                *creator,
                *bid_track,
                *ad_campaign,
                *collection_mint,
                index,
                *asset_bundler,
                clock32,
            ),
            None => r matches Err(e) && e == ProgramError::InvalidSeeds,
        },
{
    let ad_creator = match ad_creator_address(creator, store.store_hash) {
        Ok(k) => k,
        Err(e) => {
            return Err(e);
        },
    };
    let mut others: Vec<Pubkey> = Vec::new();
    others.push(ad_creator);
    others.push(*bid_track);
    others.push(*ad_campaign);
    let creators = creators_for(creator, &others);
    let uri = bid_nft_uri(asset_bundler, clock32);
    let symbol = nth_symbol_string(index as u64);
    let metadata = collection_nft("Bid V0".to_owned(), symbol, uri, creators, collection_mint);
    proof {
        assert(others@ =~= seq![ad_creator, *bid_track, *ad_campaign]);
    }
    Ok(BidNft { ad_creator, metadata })
}

/// Second half of opening a bid, once the campaign slot is reserved and the
/// bid track written: the campaign's bid-track account must be delegated to
/// the rollup (else `InvalidAccountOwner`); the messenger is written with the
/// registration of the bid (state delegated, the store, the bidder, the
/// slot it was opened in); and the bid's NFT is built.  An error changes
/// nothing.
pub fn bid_on_space_finish(
    store: &Store,
    creator: &Pubkey,
    bid_messenger: &mut Vec<u8>,
    ad_campaign_bid_tracks: &Pubkey,
    tracks_delegated: bool,
    bid_track: &Pubkey,
    ad_campaign: &Pubkey,
    collection_mint: &Pubkey,
    index: u32,
    bid_config: &BidConfig,
    messenger_slot: u64,
    changes_count: u64,
    asset_bundler: &AssetBundler,
    clock32: u32,
) -> (r: Result<BidNft, ProgramError>)
    requires
        old(bid_messenger)@.len() >= MESSENGER_TO_UPDATES_WRITE + 4 + REGISTER_BID_SIZE,
    ensures
        !tracks_delegated ==> (r matches Err(e) && e == ProgramError::InvalidAccountOwner),
        tracks_delegated && pda(ad_creator_seeds(*creator, store.store_hash)) is None ==> (r matches Err(e)
            && e == ProgramError::InvalidSeeds),
        tracks_delegated && pda(ad_creator_seeds(*creator, store.store_hash)) is Some ==> r is Ok,
        r is Err ==> final(bid_messenger)@ == old(bid_messenger)@,
        r matches Ok(nft) ==> {
            &&& tracks_delegated
            &&& pda(ad_creator_seeds(*creator, store.store_hash)) == Some(nft.ad_creator@)
            &&& bid_nft(nft, *creator, *bid_track, *ad_campaign, *collection_mint, index, *asset_bundler, clock32)
            &&& final(bid_messenger)@ == messenger_record(
                old(bid_messenger)@,
                store.store_hash,
                *creator,
                MESSENGER_DELEGATED,
                messenger_slot,
                register_update(*ad_campaign_bid_tracks, changes_count, index, *bid_config),
            )
        },
{
    if !tracks_delegated {
        return Err(ProgramError::InvalidAccountOwner);
    }
    let nft = match bid_nft_metadata(
        store,
        creator,
        bid_track,
        ad_campaign,
        collection_mint,
        index,
        asset_bundler,
        clock32,
    ) {
        Ok(n) => n,
        Err(e) => {
            return Err(e);
        },
    };
    let update = RollupUpdates::RegisterBid {
        account: *ad_campaign_bid_tracks,
        changes_count,
        index,
        budget: bid_config.budget,
        budget_per_click: bid_config.budget_per_click,
        budget_per_view: bid_config.budget_per_view,
    };
    proof {
        lemma_update_bytes_shape(update);
    }
    write_messenger_record(bid_messenger, store.store_hash, creator, MESSENGER_DELEGATED, messenger_slot, &update);
    Ok(nft)
}

/// What opening a bid reports: the sizing of its filters, the slot it took
/// in the campaign, and its NFT.
#[derive(Debug, Clone)]
pub struct BidOpening {
    pub plan: BidSpacePlan,
    pub reservation: BidSlotReservation,
    pub nft: BidNft,
}

/// Opens a bid on an ad space for the bid in slot `index` of a campaign,
/// on accounts already created (the bid track with its header's size, the
/// messenger with room for its record).  The spot counts one more live bid;
/// the campaign slot is reserved (already in use: `InvalidArgument`); the bid
/// campaign account grows to the size its slots need (more than one growth
/// step: `InvalidRealloc`); the bid track's header is written, delegated at
/// once when its filters fit in one growth step; the campaign's bid-track
/// account must be on the rollup
/// (else `InvalidAccountOwner`); the messenger registers the bid with the
/// campaign's new change counter; and the bid's NFT is built (seeds that
/// give no ad-creator address: `InvalidSeeds`).  The caller creates the
/// accounts, moves the lamports the report asks for (see [`bid_payments`]),
/// mints the NFT and delegates the accounts.
pub fn bid_on_space(
    store: &Store,
    ad_spot: &mut AdSpot,
    ad_spot_key: &Pubkey,
    ad_campaign: &mut AccountInfo,
    bid_track: &mut AccountInfo,
    bid_messenger: &mut AccountInfo,
    ad_campaign_bid_tracks: &Pubkey,
    tracks_delegated: bool,
    creator: &Pubkey,
    collection_mint: &Pubkey,
    index: u32,
    bid_config: &BidConfig,
    messenger_slot: u64,
    asset_bundler: &AssetBundler,
    bloom_bits: usize,
    clock32: u32,
) -> (r: Result<BidOpening, ProgramError>)
    requires
        old(ad_spot).live_bids < u32::MAX,
        old(bid_track).data@.len() >= START_FROM_BID_TRACK,
        old(bid_messenger).data@.len() >= MESSENGER_TO_UPDATES_WRITE + 4 + REGISTER_BID_SIZE,
        START_FROM_AD_CAMPAIGN + index < old(ad_campaign).data@.len(),
        slots_needed(read_u32(old(ad_campaign).data@, TO_AD_CAMPAIGN_SPACES_BID as int), index) <= u32::MAX,
        START_FROM_AD_CAMPAIGN + slots_needed(
            read_u32(old(ad_campaign).data@, TO_AD_CAMPAIGN_SPACES_BID as int),
            index,
        ) <= usize::MAX,
        read_u64(old(ad_campaign).data@, TO_AD_CAMPAIGN_CHANGE_COUNT as int) < u64::MAX,
        old(ad_campaign).data@[START_FROM_AD_CAMPAIGN + index] == 0 ==> read_u32(
            old(ad_campaign).data@,
            TO_AD_CAMPAIGN_LIVING_BID as int,
        ) < u32::MAX,
    ensures
        ({
            let campaign = old(ad_campaign).data@;
            let used = campaign[START_FROM_AD_CAMPAIGN + index] != 0;
            let changes = (read_u64(campaign, TO_AD_CAMPAIGN_CHANGE_COUNT as int) + 1) as u64;
            let spaces = read_u32(campaign, TO_AD_CAMPAIGN_SPACES_BID as int);
            let needed = START_FROM_AD_CAMPAIGN + slots_needed(spaces, index);
            let fits = needed <= campaign.len() + MAX_ACCOUNT_GROWTH;
            &&& used ==> (r matches Err(e) && e == ProgramError::InvalidArgument)
            &&& !used && !fits ==> (r matches Err(e) && e == ProgramError::InvalidRealloc)
            &&& !used && fits && !tracks_delegated ==> (r matches Err(e) && e == ProgramError::InvalidAccountOwner)
            &&& !used && fits && tracks_delegated && pda(ad_creator_seeds(*creator, store.store_hash)) is None
                ==> (r matches Err(e) && e == ProgramError::InvalidSeeds)
            &&& !used && fits && tracks_delegated && pda(ad_creator_seeds(*creator, store.store_hash)) is Some
                ==> r is Ok
            &&& r matches Ok(o) ==> {
                &&& !used && fits && tracks_delegated
                &&& final(ad_spot).live_bids == old(ad_spot).live_bids + 1
                &&& final(ad_spot).slot == old(ad_spot).slot
                &&& final(ad_spot).creator == old(ad_spot).creator
                &&& final(ad_spot).store_hash == old(ad_spot).store_hash
                &&& o.plan.bytes_in_bloom == bloom_bytes(bloom_bits)
                &&& o.plan.must_delegate == (bloom_bytes(bloom_bits) <= MAX_ACCOUNT_GROWTH - START_FROM_BID_TRACK)
                &&& o.plan.bytes_to_resize == START_FROM_BID_TRACK
                &&& o.plan.full_size == START_FROM_BID_TRACK + bloom_bytes(bloom_bits)
                &&& o.reservation.grows == (needed > campaign.len())
                &&& o.reservation.changes_count == changes
                &&& o.reservation.native_currency == (campaign.subrange(
                    TO_AD_CAMPAIGN_CONFIG_CURRENCY as int,
                    TO_AD_CAMPAIGN_CONFIG_CURRENCY + 32,
                ) == zeros(32))
                &&& o.reservation.total_needed == START_FROM_AD_CAMPAIGN + slots_needed(spaces, index)
                &&& o.reservation.different_size == slots_needed(spaces, index) - spaces
                &&& final(ad_campaign).data@ == (if needed > campaign.len() {
                    resized(reserved_campaign(campaign, index), needed as nat)
                } else {
                    reserved_campaign(campaign, index)
                })
                &&& final(ad_campaign).data@.len() == if needed > campaign.len() {
                    needed
                } else {
                    campaign.len() as int
                }
                &&& read_bid_config(final(bid_track).data@, TO_BID_TRACK_AD_CONFIG as int) == *bid_config
                &&& read_u32(final(bid_track).data@, TO_BID_TRACK_CAMPAIGN_BID_INDEX as int) == index
                &&& final(bid_track).data@ == bid_track_header(
                    old(bid_track).data@,
                    old(ad_campaign).key,
                    *ad_spot_key,
                    index,
                    *bid_config,
                    bloom_bytes(bloom_bits) as usize,
                    o.plan.must_delegate,
                )
                &&& final(bid_messenger).data@ == messenger_record(
                    old(bid_messenger).data@,
                    store.store_hash,
                    *creator,
                    MESSENGER_DELEGATED,
                    messenger_slot,
                    register_update(*ad_campaign_bid_tracks, changes, index, *bid_config),
                )
                &&& pda(ad_creator_seeds(*creator, store.store_hash)) == Some(o.nft.ad_creator@)
                &&& bid_nft(
                    o.nft,
                    *creator,
                    old(bid_track).key,
                    old(ad_campaign).key,
                    *collection_mint,
                    index,
                    *asset_bundler,
                    clock32,
                )
                &&& final(ad_campaign).key == old(ad_campaign).key
                &&& final(ad_campaign).lamports == old(ad_campaign).lamports
                &&& final(bid_track).key == old(bid_track).key
                &&& final(bid_track).lamports == old(bid_track).lamports
                &&& final(bid_messenger).key == old(bid_messenger).key
                &&& final(bid_messenger).lamports == old(bid_messenger).lamports
            }
        }),
{
    let ghost c0 = ad_campaign.data@;
    let plan = bid_on_space_plan(ad_spot, bloom_bits);
    let reservation = match reserve_bid_slot(&mut ad_campaign.data, index) {
        Ok(res) => res,
        Err(e) => {
            return Err(e);
        },
    };
    proof {
        if c0[START_FROM_AD_CAMPAIGN + index] == 0 {
            crate::bids::lemma_reserved_slot_creating(c0, index);
        }
    }
    if reservation.grows {
        if !resize_account(&mut ad_campaign.data, reservation.total_needed) {
            return Err(ProgramError::InvalidRealloc);
        }
    }
    write_bid_track_header(
        &mut bid_track.data,
        &ad_campaign.key,
        ad_spot_key,
        index,
        bid_config,
        plan.bytes_in_bloom,
        plan.must_delegate,
    );
    let nft = match bid_on_space_finish(
        store,
        creator,
        &mut bid_messenger.data,
        ad_campaign_bid_tracks,
        tracks_delegated,
        &bid_track.key,
        &ad_campaign.key,
        collection_mint,
        index,
        bid_config,
        messenger_slot,
        reservation.changes_count,
        asset_bundler,
        clock32,
    ) {
        Ok(n) => n,
        Err(e) => {
            return Err(e);
        },
    };
    Ok(BidOpening { plan, reservation, nft })
}

/// The size a new bid's messenger is funded for: its record, plus one
/// bid-track piece for every slot the campaign gains.
pub open spec fn messenger_funded_size(campaign: Seq<u8>, index: u32) -> int {
    let spaces = read_u32(campaign, TO_AD_CAMPAIGN_SPACES_BID as int);
    8 + MIN_ROLLUP_MESSENGER + SPACE_IN_CAMPAIGN_BID_TRACK * (slots_needed(spaces, index) - spaces)
}

/// The size a new bid's messenger is funded for (see
/// [`messenger_funded_size`]), from the campaign before the bid.
pub fn messenger_funding(campaign: &Vec<u8>, index: u32) -> (n: u64)
    requires
        campaign@.len() >= START_FROM_AD_CAMPAIGN,
    ensures
        n == messenger_funded_size(campaign@, index),
{
    let spaces = get_u32(campaign, TO_AD_CAMPAIGN_SPACES_BID);
    let needed: u64 = (if spaces > index {
        spaces as u64
    } else {
        index as u64 + 1
    }) + 1;
    (8 + MIN_ROLLUP_MESSENGER) as u64 + SPACE_IN_CAMPAIGN_BID_TRACK as u64 * (needed - spaces as u64)
}

/// What the bidder pays when opening a bid, besides creating its accounts.
#[derive(Debug, Clone, Copy, PartialEq, Eq, Structural)]
pub struct BidPayments {
    /// The bid's budget, into the bid track (native currency only).
    pub budget: u64,
    /// The rent of the bid track's filters, into the bid track.
    pub track_rent: u64,
    /// The rent of the campaign's growth, into the campaign.
    pub campaign_rent: u64,
}

/// The payments of opening bid `opening` with budget `budget`, from the
/// rent-exempt minimums of the bid track at its full size
/// (`track_rent_full`) and at the size it was created with
/// (`track_rent_created`), and of the campaign at the size it needs
/// (`campaign_rent_needed`) and at its size before (`campaign_rent_now`).
/// The budget is paid only in the native currency; each rent is the
/// difference of the two minimums when the account grows, else nothing.
pub fn bid_payments(
    opening: &BidOpening,
    budget: u64,
    track_rent_full: u64,
    track_rent_created: u64,
    campaign_rent_needed: u64,
    campaign_rent_now: u64,
) -> (p: BidPayments)
    requires
        opening.reservation.grows ==> campaign_rent_needed >= campaign_rent_now,
    ensures
        p.budget == (if opening.reservation.native_currency {
            budget
        } else {
            0
        }),
        p.track_rent == (if track_rent_full > track_rent_created {
            track_rent_full - track_rent_created
        } else {
            0
        }),
        p.campaign_rent == (if opening.reservation.grows {
            campaign_rent_needed - campaign_rent_now
        } else {
            0
        }),
{
    BidPayments {
        budget: if opening.reservation.native_currency {
            budget
        } else {
            0
        },
        track_rent: if track_rent_full > track_rent_created {
            track_rent_full - track_rent_created
        } else {
            0
        },
        campaign_rent: if opening.reservation.grows {
            campaign_rent_needed - campaign_rent_now
        } else {
            0
        },
    }
}

} // verus!

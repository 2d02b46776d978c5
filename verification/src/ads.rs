//! The marketplace's participants and listings: ad creators and space
//! creators, ad spaces and spots, campaigns and ads, and their NFTs.
use crate::bytes::{
    get_u32, get_u64, le32, le64, lemma_le_lengths, lemma_splice_basics, lemma_splice_disjoint, put_u32, put_u64, read_u32, read_u64, resize_account, resized,
    splice, write_bytes, write_zeros, zeros,
};
use crate::codec::{ad_config_bytes, ad_config_to_bytes, campaign_config_bytes, campaign_config_to_bytes, extend_bytes};
use crate::error::ProgramError;
use crate::external::{ed25519_verifies, keccak256};
use crate::hashes::{fingerprint, key_fingerprint};
use crate::layout::{
    AD_BID_TRACK_DISCRIMINATOR, AD_CAMPAIGN_BID_TRACK_DELEGATING_STATE,
    AD_CAMPAIGN_BID_TRACK_DELETING_STATE, START_FROM_AD_CAMPAIGN_BID_TRACKS,
    TO_AD_CAMPAIGN_BID_TRACK_CAMPAIGN, TO_AD_CAMPAIGN_BID_TRACK_CREATOR,
    TO_AD_CAMPAIGN_BID_TRACK_DELEGATION_STATE, TO_AD_CAMPAIGN_BID_TRACK_STORE_HASH,
    TO_AD_CAMPAIGN_CONFIG, TO_AD_CAMPAIGN_CREATOR, TO_AD_CAMPAIGN_LIVING_BID, TO_AD_CAMPAIGN_SLOT,
    TO_AD_CAMPAIGN_STORE_HASH, TO_AD_CAMPAIGN_TWITTER,
};
use crate::metadata::{
    ad_nft_uri, ad_uri, asset_nft_uri, asset_uri, collection_nft, collection_nft_fields,
    creator_hash, creator_list, creators_for, creators_preimage, nth_symbol, nth_symbol_string,
    stamp_payload, stamp_payload_bytes,
};
use crate::pda::{asset_address, asset_id, pda, twitter_address, twitter_seeds};
use crate::types::{
    AccountClass, AccountInfo, AdConfig, AdCreator, AdSpace, AdSpot, AssetSource, CampaignConfig,
    MetadataArgs, Pubkey, SpaceCreator, Store,
};
use crate::utils::verify_signature;
use vstd::bytes::u32_to_le_bytes;
use vstd::prelude::*;

verus! {

/// What a manager account must hold beyond the rent-exempt minimum: the
/// fees of two transactions' messenger reserves.
pub const MANAGER_FEE_RESERVE: u64 = 30000;

/// Lamports the creator tops a manager account up with: what it lacks to
/// reach the rent-exempt minimum plus [`MANAGER_FEE_RESERVE`].
pub open spec fn manager_top_up(lamports: u64, rent_exempt_minimum: u64) -> u64 {
    let needed = rent_exempt_minimum + MANAGER_FEE_RESERVE;
    if needed > lamports {
        (needed - lamports) as u64
    } else {
        0
    }
}

/// Registers `creator` as an ad creator in the store at `store`: class,
/// creator and the store's fingerprint are recorded, and a given manager
/// account becomes the creator's manager.  Returns what the creator must
/// pay the manager account (see [`manager_top_up`]; nothing without one).
pub fn register_ad_creator(
    ad_creator: &mut AdCreator,
    creator: &Pubkey,
    store: &Pubkey,
    ad_creator_manager: Option<&AccountInfo>,
    rent_exempt_minimum: u64,
) -> (top_up: u64)
    requires
        ad_creator_manager is Some ==> rent_exempt_minimum + MANAGER_FEE_RESERVE <= u64::MAX,
    ensures
        *final(ad_creator) == (AdCreator {
            class: AccountClass::AdCreatorV1,
            creator: *creator,
            store_hash: fingerprint(*store),
            creator_manager: match ad_creator_manager {
                Some(m) => m.key,
                None => old(ad_creator).creator_manager,
            },
            ..*old(ad_creator)
        }),
        top_up == match ad_creator_manager {
            Some(m) => manager_top_up(m.lamports, rent_exempt_minimum),
            None => 0,
        },
{
    let mut top_up: u64 = 0;
    if let Some(m) = ad_creator_manager {
        let min_base = rent_exempt_minimum + MANAGER_FEE_RESERVE;
        if min_base > m.lamports {
            top_up = min_base - m.lamports;
        }
        ad_creator.creator_manager = m.key;
    }
    ad_creator.class = AccountClass::AdCreatorV1;
    ad_creator.creator = *creator;
    ad_creator.store_hash = key_fingerprint(store);
    top_up
}

/// Registers `creator` as a space creator in the store at `store`, with
/// `ad_creator_manager` as its manager.
pub fn register_space_creator(
    space_creator: &mut SpaceCreator,
    creator: &Pubkey,
    store: &Pubkey,
    ad_creator_manager: &Pubkey,
)
    ensures
        *final(space_creator) == (SpaceCreator {
            class: AccountClass::SpaceCreatorV1,
            creator: *creator,
            store_hash: fingerprint(*store),
            creator_manager: *ad_creator_manager,
            ..*old(space_creator)
        }),
{
    space_creator.class = AccountClass::SpaceCreatorV1;
    space_creator.creator = *creator;
    space_creator.store_hash = key_fingerprint(store);
    space_creator.creator_manager = *ad_creator_manager;
}

/// Registers an ad space of `creator` in slot `slot` of the store at `store`.
pub fn register_ad_space(ad_space: &mut AdSpace, creator: &Pubkey, store: &Pubkey, slot: u32)
    ensures
        *final(ad_space) == (AdSpace {
            class: AccountClass::AdSpaceV1,
            creator: *creator,
            store_hash: fingerprint(*store),
            slot,
            ..*old(ad_space)
        }),
{
    ad_space.class = AccountClass::AdSpaceV1;
    ad_space.creator = *creator;
    ad_space.store_hash = key_fingerprint(store);
    ad_space.slot = slot;
}

/// An ad creator's counters once one more spot's (or ad's) NFT is minted:
/// one more created and one more living.
pub open spec fn spot_minted(a: AdCreator) -> AdCreator {
    AdCreator { living_spots: (a.living_spots + 1) as u32, created_spots: (a.created_spots + 1) as u32, ..a }
}

/// An ad creator's counters once one of its spots is deleted: one living
/// spot less.
pub open spec fn spot_deleted(a: AdCreator) -> AdCreator {
    AdCreator { living_spots: (a.living_spots - 1) as u32, ..a }
}

/// A space creator's counters once one more campaign's NFT is minted: one
/// more created and one more living.
pub open spec fn campaign_minted(s: SpaceCreator) -> SpaceCreator {
    SpaceCreator { living: (s.living + 1) as u32, created: (s.created + 1) as u32, ..s }
}

/// A space creator's counters once one of its campaigns is deleted: one
/// living campaign less.
pub open spec fn campaign_deleted(s: SpaceCreator) -> SpaceCreator {
    SpaceCreator { living: (s.living - 1) as u32, ..s }
}

/// The leaf number of the newest NFT of a tree: the tree's count of minted
/// leaves, minus one.
pub open spec fn newest_leaf(tree_authority: Seq<u8>) -> u64 {
    (read_u64(tree_authority, 80) - 1) as u64
}

/// The id of the newest NFT of the tree `merkle_tree`, from its tree
/// authority's count of minted leaves (see [`asset_id`]); seeds that give
/// no address are `InvalidSeeds`.
pub fn newest_asset_id(tree_authority: &Vec<u8>, merkle_tree: &Pubkey) -> (r: Result<[u8; 32], ProgramError>)
    requires
        tree_authority@.len() >= 88,
        read_u64(tree_authority@, 80) >= 1,
    ensures
        match asset_id(*merkle_tree, newest_leaf(tree_authority@)) {
            Some(k) => r matches Ok(x) && x@ == k,
            None => r == Err::<[u8; 32], ProgramError>(ProgramError::InvalidSeeds),
        },
{
    let num_minted = get_u64(tree_authority, 80);
    asset_address(merkle_tree, num_minted - 1)
}

/// Registers an ad spot of `creator` in slot `slot` and builds its NFT:
/// "Space V0", symbol from the creator's count of spots, the asset's URI
/// stamped with the time, and as creators the creator (whole share), its
/// ad-creator account and the spot.  The NFT is minted by the caller; the
/// spot counters change only once it is, through [`record_minted_spot`],
/// so this function leaves them as they are.
pub fn register_ad_spot(
    ad_spot: &mut AdSpot,
    ad_spot_key: &Pubkey,
    creator: &Pubkey,
    store: &Pubkey,
    ad_creator: &AdCreator,
    ad_creator_key: &Pubkey,
    collection_mint: &Pubkey,
    slot: u32,
    asset_source: &AssetSource,
    clock32: u32,
) -> (m: MetadataArgs)
    ensures
        *final(ad_spot) == (AdSpot {
            class: AccountClass::AdSpotV1,
            creator: *creator,
            store_hash: fingerprint(*store),
            slot,
            ..*old(ad_spot)
        }),
        collection_nft_fields(
            m,
            "Space V0"@,
            nth_symbol(ad_creator.created_spots as u64),
            asset_uri(asset_source.asset_bundler, asset_source.arweave@, stamp_payload(clock32)),
            creator_list(*creator, seq![*ad_creator_key, *ad_spot_key]),
            *collection_mint,
        ),
{
    ad_spot.class = AccountClass::AdSpotV1;
    ad_spot.creator = *creator;
    ad_spot.store_hash = key_fingerprint(store);
    ad_spot.slot = slot;
    let mut others: Vec<Pubkey> = Vec::new();
    others.push(*ad_creator_key);
    others.push(*ad_spot_key);
    let creators = creators_for(creator, &others);
    let payload = stamp_payload_bytes(clock32);
    let uri = asset_nft_uri(&asset_source.asset_bundler, &asset_source.arweave, payload.as_slice());
    let symbol = nth_symbol_string(ad_creator.created_spots as u64);
    proof {
        assert(others@ =~= seq![*ad_creator_key, *ad_spot_key]);
    }
    collection_nft("Space V0".to_owned(), symbol, uri, creators, collection_mint)
}

/// Records a spot's NFT once minted: the ad creator counts one more created
/// and living spot and the store one more living spot.  Returns the NFT's
/// id; when its seeds give no address, `InvalidSeeds` and nothing changes.
pub fn record_minted_spot(
    tree_authority: &Vec<u8>,
    merkle_tree: &Pubkey,
    ad_creator: &mut AdCreator,
    store: &mut Store,
) -> (r: Result<[u8; 32], ProgramError>)
    requires
        tree_authority@.len() >= 88,
        read_u64(tree_authority@, 80) >= 1,
        old(ad_creator).living_spots < u32::MAX,
        old(ad_creator).created_spots < u32::MAX,
        old(store).living_spots < u64::MAX,
    ensures
        match asset_id(*merkle_tree, newest_leaf(tree_authority@)) {
            Some(k) => r matches Ok(x) && x@ == k,
            None => r == Err::<[u8; 32], ProgramError>(ProgramError::InvalidSeeds),
        },
        r is Ok ==> *final(ad_creator) == spot_minted(*old(ad_creator)) && *final(store) == (Store {
            living_spots: (old(store).living_spots + 1) as u64,
            ..*old(store)
        }),
        r is Err ==> *final(ad_creator) == *old(ad_creator) && *final(store) == *old(store),
{
    let id = match newest_asset_id(tree_authority, merkle_tree) {
        Ok(id) => id,
        Err(e) => {
            return Err(e);
        },
    };
    ad_creator.living_spots = ad_creator.living_spots + 1;
    store.living_spots = store.living_spots + 1;
    ad_creator.created_spots = ad_creator.created_spots + 1;
    Ok(id)
}

/// Deletes an ad spot of `creator`: a spot with live bids is
/// `InvalidArgument`; otherwise the ad creator and the store count one
/// living spot less, and the hash of the spot NFT's creators (the creator,
/// its ad-creator account and the spot) is returned for burning the NFT.
pub fn delete_ad_spot(
    ad_spot: &AdSpot,
    ad_spot_key: &Pubkey,
    creator: &Pubkey,
    ad_creator: &mut AdCreator,
    ad_creator_key: &Pubkey,
    store: &mut Store,
) -> (r: Result<[u8; 32], ProgramError>)
    requires
        ad_spot.live_bids == 0 ==> old(ad_creator).living_spots >= 1 && old(store).living_spots >= 1,
    ensures
        ad_spot.live_bids > 0 ==> r == Err::<[u8; 32], ProgramError>(ProgramError::InvalidArgument)
            && *final(ad_creator) == *old(ad_creator) && *final(store) == *old(store),
        ad_spot.live_bids == 0 ==> (r matches Ok(h) && h@ == keccak256(
            creators_preimage(creator_list(*creator, seq![*ad_creator_key, *ad_spot_key])),
        )) && *final(ad_creator) == spot_deleted(*old(ad_creator)) && *final(store) == (Store { living_spots: (old(store).living_spots - 1) as u64, ..*old(store) }),
{
    if ad_spot.live_bids > 0 {
        return Err(ProgramError::InvalidArgument);
    }
    let mut others: Vec<Pubkey> = Vec::new();
    others.push(*ad_creator_key);
    others.push(*ad_spot_key);
    let creators = creators_for(creator, &others);
    let h = creator_hash(&creators);
    ad_creator.living_spots = ad_creator.living_spots - 1;
    store.living_spots = store.living_spots - 1;
    proof {
        assert(others@ =~= seq![*ad_creator_key, *ad_spot_key]);
    }
    Ok(h)
}

/// The twitter handle a campaign records.
pub open spec fn campaign_twitter(campaign: Seq<u8>) -> Seq<u8> {
    campaign.subrange(TO_AD_CAMPAIGN_TWITTER as int, TO_AD_CAMPAIGN_TWITTER + 32)
}

/// Deletes a campaign of `creator`: its twitter handle's account is derived
/// from the store and the handle the campaign records (no address:
/// `InvalidSeeds`); the space creator and the store count one living
/// campaign less; and the hash of the campaign NFT's creators (the creator,
/// its space-creator account, the campaign and the handle's account) is
/// returned for burning the NFT.
pub fn delete_ad_campaign(
    ad_campaign: &AccountInfo,
    creator: &Pubkey,
    store_key: &Pubkey,
    store: &mut Store,
    space_creator: &mut SpaceCreator,
    space_creator_key: &Pubkey,
) -> (r: Result<[u8; 32], ProgramError>)
    requires
        ad_campaign.data@.len() >= TO_AD_CAMPAIGN_TWITTER + 32,
        old(space_creator).living >= 1,
        old(store).living_campaigns >= 1,
    ensures
        ({
            let seeds = seq![crate::layout::TWITTER_SEED@, store_key@, campaign_twitter(ad_campaign.data@)];
            match pda(seeds) {
                None => r == Err::<[u8; 32], ProgramError>(ProgramError::InvalidSeeds),
                Some(t) => r matches Ok(h) && exists|twitter_key: Pubkey|
                    twitter_key@ == t && h@ == keccak256(
                        creators_preimage(
                            creator_list(*creator, seq![*space_creator_key, ad_campaign.key, twitter_key]),
                        ),
                    ),
            }
        }),
        r is Ok ==> *final(space_creator) == campaign_deleted(*old(space_creator)) && *final(store) == (Store {
            living_campaigns: (old(store).living_campaigns - 1) as u64,
            ..*old(store)
        }),
        r is Err ==> *final(space_creator) == *old(space_creator) && *final(store) == *old(store),
{
    let mut twitter: [u8; 32] = [0u8; 32];
    let mut i: usize = 0;
    let _len = ad_campaign.data.len();
    while i < 32
        invariant
            i <= 32,
            _len == ad_campaign.data@.len(),
            ad_campaign.data@.len() >= TO_AD_CAMPAIGN_TWITTER + 32,
            forall|j: int| 0 <= j < i ==> twitter@[j] == ad_campaign.data@[TO_AD_CAMPAIGN_TWITTER + j],
        decreases 32 - i,
    {
        twitter[i] = ad_campaign.data[TO_AD_CAMPAIGN_TWITTER + i];
        i = i + 1;
    }
    assert(twitter@ =~= campaign_twitter(ad_campaign.data@));
    let twitter_key = match twitter_address(store_key, &twitter) {
        Ok(k) => k,
        Err(e) => {
            return Err(e);
        },
    };
    let mut others: Vec<Pubkey> = Vec::new();
    others.push(*space_creator_key);
    others.push(ad_campaign.key);
    others.push(twitter_key);
    let creators = creators_for(creator, &others);
    let h = creator_hash(&creators);
    space_creator.living = space_creator.living - 1;
    store.living_campaigns = store.living_campaigns - 1;
    proof {
        assert(others@ =~= seq![*space_creator_key, ad_campaign.key, twitter_key]);
    }
    Ok(h)
}

/// Who may act on a space creator's campaigns: the store's master manager,
/// the space creator, or its manager.
pub open spec fn may_manage_campaign(store: Store, space_creator: SpaceCreator, creator: Pubkey) -> bool {
    creator@ == store.master_manager@ || space_creator.creator@ == creator@
        || space_creator.creator_manager@ == creator@
}

/// Prepares the deletion of a campaign on the rollup: only its manager may
/// (see [`may_manage_campaign`]; else `InvalidAccountOwner`), and only when
/// no bid lives (else `InvalidInstructionData`).  The campaign's bid-track
/// account is cut to its header and marked as deleting; it is then to be
/// committed back to the base layer.  An error changes nothing.
pub fn prepare_delete_ad_campaign(
    store: &Store,
    space_creator: &SpaceCreator,
    creator: &Pubkey,
    ad_campaign: &Vec<u8>,
    ad_campaign_bid_tracks: &mut Vec<u8>,
) -> (r: Result<(), ProgramError>)
    requires
        may_manage_campaign(*store, *space_creator, *creator) ==> ad_campaign@.len()
            >= TO_AD_CAMPAIGN_LIVING_BID + 4,
    ensures
        !may_manage_campaign(*store, *space_creator, *creator) ==> r == Err::<(), ProgramError>(
            ProgramError::InvalidAccountOwner,
        ),
        may_manage_campaign(*store, *space_creator, *creator) && read_u32(
            ad_campaign@,
            TO_AD_CAMPAIGN_LIVING_BID as int,
        ) > 0 ==> r == Err::<(), ProgramError>(ProgramError::InvalidInstructionData),
        may_manage_campaign(*store, *space_creator, *creator) && read_u32(
            ad_campaign@,
            TO_AD_CAMPAIGN_LIVING_BID as int,
        ) == 0 ==> r == Ok::<(), ProgramError>(()) && final(ad_campaign_bid_tracks)@ == resized(
            old(ad_campaign_bid_tracks)@,
            START_FROM_AD_CAMPAIGN_BID_TRACKS as nat,
        ).update(TO_AD_CAMPAIGN_BID_TRACK_DELEGATION_STATE as int, AD_CAMPAIGN_BID_TRACK_DELETING_STATE),
        r is Err ==> final(ad_campaign_bid_tracks)@ == old(ad_campaign_bid_tracks)@,
{
    if !crate::bytes::keys_equal(creator, &store.master_manager) && !crate::bytes::keys_equal(
        &space_creator.creator,
        creator,
    ) && !crate::bytes::keys_equal(&space_creator.creator_manager, creator) {
        return Err(ProgramError::InvalidAccountOwner);
    }
    let living_bids = get_u32(ad_campaign, TO_AD_CAMPAIGN_LIVING_BID);
    if living_bids > 0 {
        return Err(ProgramError::InvalidInstructionData);
    }
    let _ = resize_account(ad_campaign_bid_tracks, START_FROM_AD_CAMPAIGN_BID_TRACKS);
    ad_campaign_bid_tracks.set(TO_AD_CAMPAIGN_BID_TRACK_DELEGATION_STATE, AD_CAMPAIGN_BID_TRACK_DELETING_STATE);
    Ok(())
}

/// The bytes of a twitter handle other than zeros, in order.
pub open spec fn nonzero_bytes(s: Seq<u8>) -> Seq<u8>
    decreases s.len(),
{
    if s.len() == 0 {
        Seq::empty()
    } else {
        nonzero_bytes(s.drop_last()) + (if s.last() != 0 {
            seq![s.last()]
        } else {
            Seq::empty()
        })
    }
}

proof fn lemma_nonzero_bytes_len(s: Seq<u8>)
    ensures
        nonzero_bytes(s).len() <= s.len(),
    decreases s.len(),
{
    if s.len() > 0 {
        lemma_nonzero_bytes_len(s.drop_last());
    }
}

/// The payload of a campaign's NFT URI: a zero version byte, the time
/// (little-endian), the permission, the maximum seconds, then the handle
/// without its zero bytes, preceded by its length.
pub open spec fn campaign_payload(clock32: u32, config: CampaignConfig, twitter: Seq<u8>) -> Seq<u8> {
    seq![0u8] + le32(clock32) + seq![
        config.permission.code(),
        config.max_seconds,
        nonzero_bytes(twitter).len() as u8,
    ] + nonzero_bytes(twitter)
}

fn campaign_payload_bytes(clock32: u32, config: &CampaignConfig, twitter: &[u8; 32]) -> (r: Vec<u8>)
    ensures
        r@ == campaign_payload(clock32, *config, twitter@),
{
    let mut cut: Vec<u8> = Vec::new();
    let mut i: usize = 0;
    while i < 32
        invariant
            i <= 32,
            cut@ == nonzero_bytes(twitter@.take(i as int)),
        decreases 32 - i,
    {
        assert(twitter@.take(i + 1).drop_last() =~= twitter@.take(i as int));
        if twitter[i] != 0 {
            cut.push(twitter[i]);
        }
        i = i + 1;
        assert(cut@ =~= nonzero_bytes(twitter@.take(i as int)));
    }
    assert(twitter@.take(32) =~= twitter@);
    proof {
        lemma_nonzero_bytes_len(twitter@);
    }
    let mut r: Vec<u8> = Vec::new();
    r.push(0);
    extend_bytes(&mut r, u32_to_le_bytes(clock32).as_slice());
    r.push(config.permission.to_byte());
    r.push(config.max_seconds);
    r.push(cut.len() as u8);
    extend_bytes(&mut r, cut.as_slice());
    assert(r@ =~= campaign_payload(clock32, *config, twitter@));
    r
}

/// The campaign's data once registered: class, creator, the store's
/// fingerprint, slot, twitter handle and settings.
pub open spec fn registered_campaign(
    s: Seq<u8>,
    creator: Pubkey,
    store_hash: u64,
    slot: u32,
    twitter: [u8; 32],
    config: CampaignConfig,
) -> Seq<u8> {
    splice(
        splice(
            splice(
                splice(
                    splice(s.update(8, AccountClass::AdCampaignV1.code()), TO_AD_CAMPAIGN_CREATOR as int, creator@),
                    TO_AD_CAMPAIGN_STORE_HASH as int,
                    le64(store_hash),
                ),
                TO_AD_CAMPAIGN_SLOT as int,
                le32(slot),
            ),
            TO_AD_CAMPAIGN_TWITTER as int,
            twitter@,
        ),
        TO_AD_CAMPAIGN_CONFIG as int,
        campaign_config_bytes(config),
    )
}

/// A new campaign's bid-track account: discriminator and class, creator,
/// the store's fingerprint, the campaign, and the delegating state.
pub open spec fn new_campaign_tracks(s: Seq<u8>, creator: Pubkey, store_hash: u64, campaign: Pubkey) -> Seq<u8> {
    splice(
        splice(
            splice(
                splice(s, 0, AD_BID_TRACK_DISCRIMINATOR@ + seq![AccountClass::AdCampaignBidTrackV1.code()]),
                TO_AD_CAMPAIGN_BID_TRACK_CREATOR as int,
                creator@,
            ),
            TO_AD_CAMPAIGN_BID_TRACK_STORE_HASH as int,
            le64(store_hash),
        ),
        TO_AD_CAMPAIGN_BID_TRACK_CAMPAIGN as int,
        campaign@,
    ).update(TO_AD_CAMPAIGN_BID_TRACK_DELEGATION_STATE as int, AD_CAMPAIGN_BID_TRACK_DELEGATING_STATE)
}

/// The message the store's master manager signs to vouch for a creator's
/// twitter handle: the creator's address, then the handle.
pub open spec fn twitter_message(creator: Pubkey, twitter: [u8; 32]) -> Seq<u8> {
    creator@ + twitter@
}

/// Registers a campaign of `creator` for its twitter handle in the store at
/// `store_key`: the master manager's signature over the creator and the
/// handle must verify (else `InvalidAccountOwner`) and the handle's account
/// must be derivable (else `InvalidSeeds`).  The campaign and its bid-track
/// account are written, and the campaign's NFT is built: "Space V0", symbol
/// from the space creator's count, the asset's URI with the campaign's
/// payload, and as creators the creator (whole share), its space-creator
/// account, the campaign and the handle's account.  An error changes nothing.
/// The NFT is minted by the caller; the campaign counters change only once
/// it is, through [`record_minted_campaign`], so this function leaves the
/// space creator and the store as they are.
pub fn register_ad_campaign(
    ad_campaign: &mut AccountInfo,
    ad_campaign_bid_tracks: &mut Vec<u8>,
    store: &Store,
    store_key: &Pubkey,
    creator: &Pubkey,
    space_creator: &SpaceCreator,
    space_creator_key: &Pubkey,
    collection_mint: &Pubkey,
    twitter_proof: &[u8; 64],
    slot: u32,
    campaign_config: &CampaignConfig,
    twitter: &[u8; 32],
    asset_source: &AssetSource,
    clock32: u32,
) -> (r: Result<MetadataArgs, ProgramError>)
    requires
        old(ad_campaign).data@.len() >= TO_AD_CAMPAIGN_CONFIG + 52,
        old(ad_campaign_bid_tracks)@.len() > TO_AD_CAMPAIGN_BID_TRACK_DELEGATION_STATE,
    ensures
        ({
            let signed = ed25519_verifies(store.master_manager@, twitter_proof@, twitter_message(*creator, *twitter));
            &&& !signed ==> r == Err::<MetadataArgs, ProgramError>(ProgramError::InvalidAccountOwner)
            &&& signed && pda(twitter_seeds(*store_key, *twitter)) is None ==> r == Err::<
                MetadataArgs,
                ProgramError,
            >(ProgramError::InvalidSeeds)
            &&& r is Err ==> *final(ad_campaign) == *old(ad_campaign) && final(ad_campaign_bid_tracks)@
                == old(ad_campaign_bid_tracks)@
            &&& signed && pda(twitter_seeds(*store_key, *twitter)) is Some ==> r is Ok
            &&& r matches Ok(m) ==> {
                &&& final(ad_campaign).data@ == registered_campaign(
                    old(ad_campaign).data@,
                    *creator,
                    fingerprint(*store_key),
                    slot,
                    *twitter,
                    *campaign_config,
                )
                &&& final(ad_campaign).key == old(ad_campaign).key
                &&& final(ad_campaign).lamports == old(ad_campaign).lamports
                &&& final(ad_campaign_bid_tracks)@ == new_campaign_tracks(
                    old(ad_campaign_bid_tracks)@,
                    *creator,
                    fingerprint(*store_key),
                    old(ad_campaign).key,
                )
                &&& exists|twitter_key: Pubkey|
                    pda(twitter_seeds(*store_key, *twitter)) == Some(twitter_key@) && collection_nft_fields(
                        m,
                        "Space V0"@,
                        nth_symbol(space_creator.created as u64),
                        asset_uri(
                            asset_source.asset_bundler,
                            asset_source.arweave@,
                            campaign_payload(clock32, *campaign_config, twitter@),
                        ),
                        creator_list(*creator, seq![*space_creator_key, old(ad_campaign).key, twitter_key]),
                        *collection_mint,
                    )
            }
        }),
{
    let mut message: Vec<u8> = Vec::new();
    extend_bytes(&mut message, creator.as_slice());
    extend_bytes(&mut message, twitter.as_slice());
    if verify_signature(message.as_slice(), twitter_proof, &store.master_manager).is_err() {
        return Err(ProgramError::InvalidAccountOwner);
    }
    let twitter_key = match twitter_address(store_key, twitter) {
        Ok(k) => k,
        Err(e) => {
            return Err(e);
        },
    };
    let store_hash = key_fingerprint(store_key);
    ad_campaign.data.set(8, AccountClass::AdCampaignV1.to_byte());
    write_bytes(&mut ad_campaign.data, TO_AD_CAMPAIGN_CREATOR, creator.as_slice());
    put_u64(&mut ad_campaign.data, TO_AD_CAMPAIGN_STORE_HASH, store_hash);
    put_u32(&mut ad_campaign.data, TO_AD_CAMPAIGN_SLOT, slot);
    write_bytes(&mut ad_campaign.data, TO_AD_CAMPAIGN_TWITTER, twitter.as_slice());
    let cfg = campaign_config_to_bytes(campaign_config);
    write_bytes(&mut ad_campaign.data, TO_AD_CAMPAIGN_CONFIG, cfg.as_slice());
    let mut head: Vec<u8> = Vec::new();
    extend_bytes(&mut head, AD_BID_TRACK_DISCRIMINATOR.as_slice());
    head.push(AccountClass::AdCampaignBidTrackV1.to_byte());
    write_bytes(ad_campaign_bid_tracks, 0, head.as_slice());
    write_bytes(ad_campaign_bid_tracks, TO_AD_CAMPAIGN_BID_TRACK_CREATOR, creator.as_slice());
    put_u64(ad_campaign_bid_tracks, TO_AD_CAMPAIGN_BID_TRACK_STORE_HASH, store_hash);
    write_bytes(ad_campaign_bid_tracks, TO_AD_CAMPAIGN_BID_TRACK_CAMPAIGN, ad_campaign.key.as_slice());
    ad_campaign_bid_tracks.set(TO_AD_CAMPAIGN_BID_TRACK_DELEGATION_STATE, AD_CAMPAIGN_BID_TRACK_DELEGATING_STATE);
    let mut others: Vec<Pubkey> = Vec::new();
    others.push(*space_creator_key);
    others.push(ad_campaign.key);
    others.push(twitter_key);
    let creators = creators_for(creator, &others);
    let payload = campaign_payload_bytes(clock32, campaign_config, twitter);
    let uri = asset_nft_uri(&asset_source.asset_bundler, &asset_source.arweave, payload.as_slice());
    let symbol = nth_symbol_string(space_creator.created as u64);
    let m = collection_nft("Space V0".to_owned(), symbol, uri, creators, collection_mint);
    proof {
        assert(others@ =~= seq![*space_creator_key, old(ad_campaign).key, twitter_key]);
        assert(message@ =~= twitter_message(*creator, *twitter));
        assert(head@ =~= AD_BID_TRACK_DISCRIMINATOR@ + seq![AccountClass::AdCampaignBidTrackV1.code()]);
    }
    Ok(m)
}

/// Records a campaign's NFT once minted: the space creator counts one more
/// created and living campaign and the store one more living campaign.
/// Returns the NFT's id; when its seeds give no address, `InvalidSeeds` and
/// nothing changes.
pub fn record_minted_campaign(
    tree_authority: &Vec<u8>,
    merkle_tree: &Pubkey,
    space_creator: &mut SpaceCreator,
    store: &mut Store,
) -> (r: Result<[u8; 32], ProgramError>)
    requires
        tree_authority@.len() >= 88,
        read_u64(tree_authority@, 80) >= 1,
        old(space_creator).living < u32::MAX,
        old(space_creator).created < u32::MAX,
        old(store).living_campaigns < u64::MAX,
    ensures
        match asset_id(*merkle_tree, newest_leaf(tree_authority@)) {
            Some(k) => r matches Ok(x) && x@ == k,
            None => r == Err::<[u8; 32], ProgramError>(ProgramError::InvalidSeeds),
        },
        r is Ok ==> *final(space_creator) == campaign_minted(*old(space_creator)) && *final(store) == (Store {
            living_campaigns: (old(store).living_campaigns + 1) as u64,
            ..*old(store)
        }),
        r is Err ==> *final(space_creator) == *old(space_creator) && *final(store) == *old(store),
{
    let id = match newest_asset_id(tree_authority, merkle_tree) {
        Ok(id) => id,
        Err(e) => {
            return Err(e);
        },
    };
    space_creator.living = space_creator.living + 1;
    store.living_campaigns = store.living_campaigns + 1;
    space_creator.created = space_creator.created + 1;
    Ok(id)
}

/// Builds an ad's NFT: "Ad V0", symbol from the ad creator's count of spots,
/// the ad's URI stamped with the time, and as creators the creator (whole
/// share), its ad-creator account and the ad.  The NFT is minted by the
/// caller; the counters, the ad's data and its statistics account are
/// written only once it is, through [`record_minted_ad`], so this function
/// changes nothing.
pub fn create_ad(
    ad_creator: &AdCreator,
    ad_creator_key: &Pubkey,
    ad_key: &Pubkey,
    creator: &Pubkey,
    collection_mint: &Pubkey,
    ad_config: &AdConfig,
    clock32: u32,
) -> (m: MetadataArgs)
    ensures
        collection_nft_fields(
            m,
            "Ad V0"@,
            nth_symbol(ad_creator.created_spots as u64),
            ad_uri(ad_config.asset_bundler, ad_config.arweave@, clock32),
            creator_list(*creator, seq![*ad_creator_key, *ad_key]),
            *collection_mint,
        ),
{
    let mut others: Vec<Pubkey> = Vec::new();
    others.push(*ad_creator_key);
    others.push(*ad_key);
    let creators = creators_for(creator, &others);
    let uri = ad_nft_uri(&ad_config.asset_bundler, ad_config.arweave.as_slice(), clock32);
    let symbol = nth_symbol_string(ad_creator.created_spots as u64);
    proof {
        assert(others@ =~= seq![*ad_creator_key, *ad_key]);
    }
    collection_nft("Ad V0".to_owned(), symbol, uri, creators, collection_mint)
}

/// An ad's data once its NFT is minted: class and version, creator, the
/// store's fingerprint, slot, the NFT's id and the settings.
pub open spec fn written_ad(
    s: Seq<u8>,
    creator: Pubkey,
    store_hash: u64,
    slot: u64,
    asset_id: Seq<u8>,
    config: AdConfig,
) -> Seq<u8> {
    splice(
        splice(
            splice(
                splice(splice(s, 8, seq![AccountClass::AdV1.code(), 1u8] + creator@), 42, le64(store_hash)),
                50,
                le64(slot),
            ),
            58,
            asset_id,
        ),
        90,
        ad_config_bytes(config),
    )
}

/// An ad's account holds what the ad was created with: reading it back
/// gives its class and version, the creator, the store's fingerprint, the
/// slot, the NFT's id, and the ad's terms exactly as given (category, total
/// and daily budget each in its own field, bundler, asset), and the account
/// keeps its length.
pub proof fn lemma_written_ad_reads_back(
    s: Seq<u8>,
    creator: Pubkey,
    store_hash: u64,
    slot: u64,
    asset_id: Seq<u8>,
    config: AdConfig,
)
    requires
        s.len() >= 158,
        asset_id.len() == 32,
    ensures
        ({
            let h = written_ad(s, creator, store_hash, slot, asset_id, config);
            &&& h.len() == s.len()
            &&& h[8] == AccountClass::AdV1.code()
            &&& h[9] == 1
            &&& h.subrange(10, 42) == creator@
            &&& read_u64(h, 42) == store_hash
            &&& read_u64(h, 50) == slot
            &&& h.subrange(58, 90) == asset_id
            &&& h[90] == config.category
            &&& read_u64(h, 91) == config.budget.total
            &&& read_u64(h, 99) == config.budget.daily
            &&& h[107] == config.asset_bundler.code()
            &&& h.subrange(108, 158) == config.arweave@
            &&& forall|i: int| (0 <= i < 8 || 158 <= i < s.len()) ==> #[trigger] h[i] == s[i]
        }),
{
    lemma_le_lengths(0, 0, store_hash);
    lemma_le_lengths(0, 0, slot);
    lemma_le_lengths(0, 0, config.budget.total);
    lemma_le_lengths(0, 0, config.budget.daily);
    let head = seq![AccountClass::AdV1.code(), 1u8] + creator@;
    let cb = ad_config_bytes(config);
    assert(cb.len() == 68);
    let h0 = splice(s, 8, head);
    let h1 = splice(h0, 42, le64(store_hash));
    let h2 = splice(h1, 50, le64(slot));
    let h3 = splice(h2, 58, asset_id);
    let h4 = splice(h3, 90, cb);
    lemma_splice_basics(s, 8, head);
    lemma_splice_basics(h0, 42, le64(store_hash));
    lemma_splice_basics(h1, 50, le64(slot));
    lemma_splice_basics(h2, 58, asset_id);
    lemma_splice_basics(h3, 90, cb);
    lemma_splice_disjoint(h3, 90, cb, 8, 34);
    lemma_splice_disjoint(h2, 58, asset_id, 8, 34);
    lemma_splice_disjoint(h1, 50, le64(slot), 8, 34);
    lemma_splice_disjoint(h0, 42, le64(store_hash), 8, 34);
    lemma_splice_disjoint(h3, 90, cb, 42, 8);
    lemma_splice_disjoint(h2, 58, asset_id, 42, 8);
    lemma_splice_disjoint(h1, 50, le64(slot), 42, 8);
    lemma_splice_disjoint(h3, 90, cb, 50, 8);
    lemma_splice_disjoint(h2, 58, asset_id, 50, 8);
    lemma_splice_disjoint(h3, 90, cb, 58, 32);
    assert(h4.subrange(8, 42)[0] == h4[8]);
    assert(h4.subrange(8, 42)[1] == h4[9]);
    assert(h4.subrange(10, 42) =~= h4.subrange(8, 42).subrange(2, 34));
    assert(h4.subrange(90, 158)[0] == h4[90]);
    assert(h4.subrange(91, 99) =~= h4.subrange(90, 158).subrange(1, 9));
    assert(cb.subrange(1, 9) =~= le64(config.budget.total));
    assert(h4.subrange(99, 107) =~= h4.subrange(90, 158).subrange(9, 17));
    assert(cb.subrange(9, 17) =~= le64(config.budget.daily));
    assert(h4.subrange(90, 158)[17] == h4[107]);
    assert(h4.subrange(108, 158) =~= h4.subrange(90, 158).subrange(18, 68));
    assert(cb.subrange(18, 68) =~= config.arweave@);
    let n1 = s.len() - 158;
    lemma_splice_disjoint(s, 8, head, 0, 8);
    lemma_splice_disjoint(h0, 42, le64(store_hash), 0, 8);
    lemma_splice_disjoint(h1, 50, le64(slot), 0, 8);
    lemma_splice_disjoint(h2, 58, asset_id, 0, 8);
    lemma_splice_disjoint(h3, 90, cb, 0, 8);
    lemma_splice_disjoint(s, 8, head, 158, n1);
    lemma_splice_disjoint(h0, 42, le64(store_hash), 158, n1);
    lemma_splice_disjoint(h1, 50, le64(slot), 158, n1);
    lemma_splice_disjoint(h2, 58, asset_id, 158, n1);
    lemma_splice_disjoint(h3, 90, cb, 158, n1);
    assert forall|i: int| (0 <= i < 8 || 158 <= i < s.len()) implies #[trigger] h4[i] == s[i] by {
        if i < 8 {
            assert(h4[i] == h4.subrange(0, 8)[i]);
            assert(s[i] == s.subrange(0, 8)[i]);
        } else {
            assert(h4[i] == h4.subrange(158, 158 + n1)[i - 158]);
            assert(s[i] == s.subrange(158, 158 + n1)[i - 158]);
        }
    }
}

/// An ad's statistics account, once created, names its ad and has every
/// counter cleared: class and version, the ad's key, then forty zero
/// bytes; the discriminator and anything past the counters stay as they
/// were.
pub proof fn lemma_written_ad_stats_reads_back(s: Seq<u8>, ad: Pubkey)
    requires
        s.len() >= 82,
    ensures
        ({
            let h = written_ad_stats(s, ad);
            &&& h.len() == s.len()
            &&& h[8] == AccountClass::AdStatsV1.code()
            &&& h[9] == 1
            &&& h.subrange(10, 42) == ad@
            &&& forall|i: int| 42 <= i < 82 ==> #[trigger] h[i] == 0
            &&& forall|i: int| (0 <= i < 8 || 82 <= i < s.len()) ==> #[trigger] h[i] == s[i]
        }),
{
    let head = seq![AccountClass::AdStatsV1.code(), 1u8] + ad@;
    let h0 = splice(s, 8, head);
    let h1 = splice(h0, 42, zeros(40));
    let n1 = s.len() - 82;
    lemma_splice_basics(s, 8, head);
    lemma_splice_basics(h0, 42, zeros(40));
    lemma_splice_disjoint(h0, 42, zeros(40), 8, 34);
    lemma_splice_disjoint(s, 8, head, 0, 8);
    lemma_splice_disjoint(h0, 42, zeros(40), 0, 8);
    lemma_splice_disjoint(s, 8, head, 82, n1);
    lemma_splice_disjoint(h0, 42, zeros(40), 82, n1);
    assert(h1.subrange(8, 42)[0] == h1[8]);
    assert(h1.subrange(8, 42)[1] == h1[9]);
    assert(h1.subrange(10, 42) =~= h1.subrange(8, 42).subrange(2, 34));
    assert forall|i: int| 42 <= i < 82 implies #[trigger] h1[i] == 0 by {
        assert(h1[i] == h1.subrange(42, 82)[i - 42]);
    }
    assert forall|i: int| (0 <= i < 8 || 82 <= i < s.len()) implies #[trigger] h1[i] == s[i] by {
        if i < 8 {
            assert(h1[i] == h1.subrange(0, 8)[i]);
            assert(s[i] == s.subrange(0, 8)[i]);
        } else {
            assert(h1[i] == h1.subrange(82, 82 + n1)[i - 82]);
            assert(s[i] == s.subrange(82, 82 + n1)[i - 82]);
        }
    }
}

/// An ad's statistics account once created: class and version, the ad, and
/// cleared counters.
pub open spec fn written_ad_stats(s: Seq<u8>, ad: Pubkey) -> Seq<u8> {
    splice(splice(s, 8, seq![AccountClass::AdStatsV1.code(), 1u8] + ad@), 42, zeros(40))
}

/// Records an ad once its NFT is minted: the ad creator counts one more
/// created and living spot, the ad's data and its statistics account are
/// written.  Returns the NFT's id; when its seeds give no address,
/// `InvalidSeeds` and nothing changes.
pub fn record_minted_ad(
    tree_authority: &Vec<u8>,
    merkle_tree: &Pubkey,
    ad_creator: &mut AdCreator,
    ad: &mut Vec<u8>,
    ad_key: &Pubkey,
    ad_stats: &mut Vec<u8>,
    creator: &Pubkey,
    store: &Store,
    slot: u64,
    ad_config: &AdConfig,
) -> (r: Result<[u8; 32], ProgramError>)
    requires
        tree_authority@.len() >= 88,
        read_u64(tree_authority@, 80) >= 1,
        old(ad_creator).living_spots < u32::MAX,
        old(ad_creator).created_spots < u32::MAX,
        old(ad)@.len() >= 158,
        old(ad_stats)@.len() >= 82,
    ensures
        match asset_id(*merkle_tree, newest_leaf(tree_authority@)) {
            Some(k) => r matches Ok(x) && x@ == k,
            None => r == Err::<[u8; 32], ProgramError>(ProgramError::InvalidSeeds),
        },
        r matches Ok(id) ==> {
            &&& *final(ad_creator) == spot_minted(*old(ad_creator))
            &&& final(ad)@ == written_ad(old(ad)@, *creator, store.store_hash, slot, id@, *ad_config)
            &&& final(ad)@[90] == ad_config.category
            &&& read_u64(final(ad)@, 91) == ad_config.budget.total
            &&& read_u64(final(ad)@, 99) == ad_config.budget.daily
            &&& final(ad)@.subrange(58, 90) == id@
            &&& final(ad_stats)@ == written_ad_stats(old(ad_stats)@, *ad_key)
        },
        r is Err ==> *final(ad_creator) == *old(ad_creator) && final(ad)@ == old(ad)@ && final(ad_stats)@ == old(
            ad_stats,
        )@,
{
    let id = match newest_asset_id(tree_authority, merkle_tree) {
        Ok(id) => id,
        Err(e) => {
            return Err(e);
        },
    };
    ad_creator.created_spots = ad_creator.created_spots + 1;
    ad_creator.living_spots = ad_creator.living_spots + 1;
    let mut head: Vec<u8> = Vec::new();
    head.push(AccountClass::AdV1.to_byte());
    head.push(1);
    extend_bytes(&mut head, creator.as_slice());
    write_bytes(ad, 8, head.as_slice());
    put_u64(ad, 42, store.store_hash);
    put_u64(ad, 50, slot);
    write_bytes(ad, 58, id.as_slice());
    let cfg = ad_config_to_bytes(ad_config);
    write_bytes(ad, 90, cfg.as_slice());
    let mut stats_head: Vec<u8> = Vec::new();
    stats_head.push(AccountClass::AdStatsV1.to_byte());
    stats_head.push(1);
    extend_bytes(&mut stats_head, ad_key.as_slice());
    write_bytes(ad_stats, 8, stats_head.as_slice());
    write_zeros(ad_stats, 42, 40);
    proof {
        assert(head@ =~= seq![AccountClass::AdV1.code(), 1u8] + creator@);
        assert(stats_head@ =~= seq![AccountClass::AdStatsV1.code(), 1u8] + ad_key@);
    }
    proof {
        lemma_written_ad_reads_back(old(ad)@, *creator, store.store_hash, slot, id@, *ad_config);
    }
    Ok(id)
}

/// Deleting a spot undoes what minting it did to the living counts: the ad
/// creator and the store count as many living spots as before, and the
/// creator's count of created spots keeps the new spot.
pub proof fn lemma_spot_delete_undoes_mint(a: AdCreator, s: Store)
    requires
        a.living_spots < u32::MAX,
        a.created_spots < u32::MAX,
        s.living_spots < u64::MAX,
    ensures
        spot_deleted(spot_minted(a)) == (AdCreator { created_spots: (a.created_spots + 1) as u32, ..a }),
        (Store {
            living_spots: ((Store { living_spots: (s.living_spots + 1) as u64, ..s }).living_spots - 1) as u64,
            ..s
        }) == s,
{
}

/// Deleting a campaign undoes what minting it did to the living counts: the
/// space creator and the store count as many living campaigns as before,
/// and the space creator's count of created campaigns keeps the new one.
pub proof fn lemma_campaign_delete_undoes_mint(c: SpaceCreator, s: Store)
    requires
        c.living < u32::MAX,
        c.created < u32::MAX,
        s.living_campaigns < u64::MAX,
    ensures
        campaign_deleted(campaign_minted(c)) == (SpaceCreator { created: (c.created + 1) as u32, ..c }),
        (Store {
            living_campaigns: ((Store { living_campaigns: (s.living_campaigns + 1) as u64, ..s }).living_campaigns
                - 1) as u64,
            ..s
        }) == s,
{
}

} // verus!

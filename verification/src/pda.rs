//! Addresses the program derives from seeds: ad creators, a campaign's
//! bid-track account and twitter handles.
use crate::bytes::le64;
use crate::codec::extend_bytes;
use crate::error::ProgramError;
use crate::external::{program_address, try_find_program_address};
use crate::layout::{AD_CAMPAIGN_BID_TRACKS_SEED, AD_CREATOR_SEED, ASSET_SEED, BUBBLEGUM_ID, PROGRAM_ID, TWITTER_SEED};
use crate::types::Pubkey;
use vstd::bytes::u64_to_le_bytes;
use vstd::prelude::*;

verus! {

/// The address derived from `seeds` under this program, if one exists.
pub open spec fn pda(seeds: Seq<Seq<u8>>) -> Option<Seq<u8>> {
    match program_address(seeds, PROGRAM_ID@) {
        Some(p) => Some(p.0),
        None => None,
    }
}

/// What finding an address reports: the address, or `InvalidSeeds` when
/// the seeds give none.
pub open spec fn pda_result(seeds: Seq<Seq<u8>>, r: Result<Pubkey, ProgramError>) -> bool {
    match pda(seeds) {
        Some(k) => r matches Ok(x) && x@ == k,
        None => r == Err::<Pubkey, ProgramError>(ProgramError::InvalidSeeds),
    }
}

fn owned(b: &[u8]) -> (r: Vec<u8>)
    ensures
        r@ == b@,
{
    let mut r: Vec<u8> = Vec::new();
    extend_bytes(&mut r, b);
    assert(r@ =~= b@);
    r
}

/// The address derived from `seeds` under this program.
pub fn find_program_address(seeds: &Vec<Vec<u8>>) -> (r: Result<Pubkey, ProgramError>)
    ensures
        pda_result(seeds@.map_values(|s: Vec<u8>| s@), r),
{
    match try_find_program_address(seeds, &PROGRAM_ID) {
        Some(p) => Ok(p.0),
        None => Err(ProgramError::InvalidSeeds),
    }
}

/// Seeds of the ad-creator account of `creator` in the store `store_hash`.
pub open spec fn ad_creator_seeds(creator: Pubkey, store_hash: u64) -> Seq<Seq<u8>> {
    seq![AD_CREATOR_SEED@, creator@, le64(store_hash)]
}

/// The ad-creator account of `creator` in the store `store_hash`.
pub fn ad_creator_address(creator: &Pubkey, store_hash: u64) -> (r: Result<Pubkey, ProgramError>)
    ensures
        pda_result(ad_creator_seeds(*creator, store_hash), r),
{
    let mut seeds: Vec<Vec<u8>> = Vec::new();
    seeds.push(owned(AD_CREATOR_SEED.as_slice()));
    seeds.push(owned(creator.as_slice()));
    seeds.push(u64_to_le_bytes(store_hash));
    assert(seeds@.map_values(|s: Vec<u8>| s@) =~= ad_creator_seeds(*creator, store_hash));
    find_program_address(&seeds)
}

/// Seeds of the bid-track account of the campaign at `campaign`.
pub open spec fn bid_tracks_seeds(campaign: Pubkey) -> Seq<Seq<u8>> {
    seq![AD_CAMPAIGN_BID_TRACKS_SEED@, campaign@]
}

/// The bid-track account of the campaign at `campaign`.
pub fn bid_tracks_address(campaign: &Pubkey) -> (r: Result<Pubkey, ProgramError>)
    ensures
        pda_result(bid_tracks_seeds(*campaign), r),
{
    let mut seeds: Vec<Vec<u8>> = Vec::new();
    seeds.push(owned(AD_CAMPAIGN_BID_TRACKS_SEED.as_slice()));
    seeds.push(owned(campaign.as_slice()));
    assert(seeds@.map_values(|s: Vec<u8>| s@) =~= bid_tracks_seeds(*campaign));
    find_program_address(&seeds)
}

/// Seeds of the account of the twitter handle `twitter` in the store at `store`.
pub open spec fn twitter_seeds(store: Pubkey, twitter: [u8; 32]) -> Seq<Seq<u8>> {
    seq![TWITTER_SEED@, store@, twitter@]
}

/// The account of the twitter handle `twitter` in the store at `store`.
pub fn twitter_address(store: &Pubkey, twitter: &[u8; 32]) -> (r: Result<Pubkey, ProgramError>)
    ensures
        pda_result(twitter_seeds(*store, *twitter), r),
{
    let mut seeds: Vec<Vec<u8>> = Vec::new();
    seeds.push(owned(TWITTER_SEED.as_slice()));
    seeds.push(owned(store.as_slice()));
    seeds.push(owned(twitter.as_slice()));
    assert(seeds@.map_values(|s: Vec<u8>| s@) =~= twitter_seeds(*store, *twitter));
    find_program_address(&seeds)
}

/// Seeds of the asset id of leaf `nonce` of the tree `tree`.
pub open spec fn asset_seeds(tree: Pubkey, nonce: u64) -> Seq<Seq<u8>> {
    seq![ASSET_SEED@, tree@, le64(nonce)]
}

/// The asset id of leaf `nonce` of the tree `tree`: the address its seeds
/// give under Bubblegum, if one exists.
pub open spec fn asset_id(tree: Pubkey, nonce: u64) -> Option<Seq<u8>> {
    match program_address(asset_seeds(tree, nonce), BUBBLEGUM_ID@) {
        Some(p) => Some(p.0),
        None => None,
    }
}

/// The asset id of leaf `nonce` of the tree `tree` (see [`asset_id`]);
/// seeds that give no address are `InvalidSeeds`.
pub fn asset_address(tree: &Pubkey, nonce: u64) -> (r: Result<Pubkey, ProgramError>)
    ensures
        match asset_id(*tree, nonce) {
            Some(k) => r matches Ok(x) && x@ == k,
            None => r == Err::<Pubkey, ProgramError>(ProgramError::InvalidSeeds),
        },
{
    let mut seeds: Vec<Vec<u8>> = Vec::new();
    seeds.push(owned(ASSET_SEED.as_slice()));
    seeds.push(owned(tree.as_slice()));
    seeds.push(u64_to_le_bytes(nonce));
    assert(seeds@.map_values(|s: Vec<u8>| s@) =~= asset_seeds(*tree, nonce));
    match try_find_program_address(&seeds, &BUBBLEGUM_ID) {
        Some(p) => Ok(p.0),
        None => Err(ProgramError::InvalidSeeds),
    }
}

} // verus!

//! The roots of the marketplace: universes, masters and stores, and the
//! program's NFT collection.
use crate::cnft::{
    create_master_edition_v3, create_metadata_data, create_metadata_metas, create_metadata_v3,
    extra_metas, master_edition_metas, Instruction, MPL_METADATA_ID,
};
use crate::bytes::le64;
use crate::hashes::{fingerprint, key_fingerprint};
use crate::metadata::{collection_metadata_uri, collection_uri};
use crate::types::{AccountClass, Master, Pubkey, Store, TokenMetadata, Universe};
use vstd::prelude::*;
use vstd::utf8::encode_utf8;

verus! {

/// Creates a universe of `creator` in slot `slot`, fingerprinted by its address.
pub fn create_universe(universe: &mut Universe, universe_key: &Pubkey, creator: &Pubkey, slot: u16)
    ensures
        *final(universe) == (Universe {
            class: AccountClass::UniverseV1,
            creator: *creator,
            slot,
            universe_hash: fingerprint(*universe_key),
            ..*old(universe)
        }),
{
    universe.class = AccountClass::UniverseV1;
    universe.creator = *creator;
    universe.slot = slot;
    universe.universe_hash = key_fingerprint(universe_key);
}

/// Creates a master of the universe at `universe_key`, managed by `manager`,
/// in slot `slot`.
pub fn create_master(master: &mut Master, manager: &Pubkey, universe_key: &Pubkey, slot: u16)
    ensures
        *final(master) == (Master {
            class: AccountClass::MasterV1,
            manager: *manager,
            slot,
            universe_hash: fingerprint(*universe_key),
            ..*old(master)
        }),
{
    master.class = AccountClass::MasterV1;
    master.manager = *manager;
    master.slot = slot;
    master.universe_hash = key_fingerprint(universe_key);
}

/// Creates a store of `creator` in the universe, which counts one more
/// store: the store is fingerprinted by its address and takes the master
/// and the master's manager.
pub fn create_store(
    universe: &mut Universe,
    universe_key: &Pubkey,
    store: &mut Store,
    store_key: &Pubkey,
    master: &Master,
    master_key: &Pubkey,
    creator: &Pubkey,
    slot: u16,
)
    requires
        old(universe).count < u32::MAX,
    ensures
        *final(universe) == (Universe { count: (old(universe).count + 1) as u32, ..*old(universe) }),
        *final(store) == (Store {
            class: AccountClass::StoreV1,
            creator: *creator,
            slot,
            universe: *universe_key,
            store_hash: fingerprint(*store_key),
            master: *master_key,
            master_manager: master.manager,
            ..*old(store)
        }),
{
    universe.count = universe.count + 1;
    store.class = AccountClass::StoreV1;
    store.creator = *creator;
    store.slot = slot;
    store.universe = *universe_key;
    store.store_hash = key_fingerprint(store_key);
    store.master = *master_key;
    store.master_manager = master.manager;
}

/// The two Token Metadata instructions that make a collection NFT.
#[derive(Debug, Clone)]
pub struct CollectionInstructions {
    pub metadata: Instruction,
    pub master_edition: Instruction,
}

/// The instructions that make the store's collection NFT: its metadata
/// (the collection's name and symbol, the asset's URI, no royalty, the
/// payer as creator, sized collection details) with the mint as its own
/// mint authority and the program's tree authority as update authority,
/// then (once one token is minted) its master edition with no further
/// supply.
pub fn create_collection(
    token_metadata: &TokenMetadata,
    mint: &Pubkey,
    metadata: &Pubkey,
    payer: &Pubkey,
    creator_authority: &Pubkey,
    edition: &Pubkey,
    rent: &Pubkey,
    system_program: &Pubkey,
    token_program: &Pubkey,
    remaining: &Vec<Pubkey>,
) -> (ix: CollectionInstructions)
    requires
        encode_utf8(token_metadata.name@).len() <= u32::MAX,
        encode_utf8(token_metadata.symbol@).len() <= u32::MAX,
        encode_utf8(collection_uri(token_metadata.asset_bundler, token_metadata.arweave@)).len() <= u32::MAX,
    ensures
        ix.metadata.program_id == MPL_METADATA_ID,
        ix.metadata.accounts@ == create_metadata_metas(
            seq![*metadata, *mint, *mint, *payer, *creator_authority, *system_program, *rent],
        ) + extra_metas(remaining@, false),
        ix.metadata.data@ == create_metadata_data(
            *payer,
            token_metadata.name@,
            token_metadata.symbol@,
            collection_uri(token_metadata.asset_bundler, token_metadata.arweave@),
            0,
            true,
        ),
        ix.master_edition.program_id == MPL_METADATA_ID,
        ix.master_edition.accounts@ == master_edition_metas(
            seq![
                *edition,
                *mint,
                *creator_authority,
                *mint,
                *payer,
                *metadata,
                *token_program,
                *system_program,
                *rent,
            ],
        ) + extra_metas(remaining@, false),
        ix.master_edition.data@ == seq![17u8, 1u8] + le64(0),
{
    let uri = collection_metadata_uri(&token_metadata.asset_bundler, &token_metadata.arweave);
    let mut keys: Vec<Pubkey> = Vec::new();
    keys.push(*metadata);
    keys.push(*mint);
    keys.push(*mint);
    keys.push(*payer);
    keys.push(*creator_authority);
    keys.push(*system_program);
    keys.push(*rent);
    assert(keys@ =~= seq![*metadata, *mint, *mint, *payer, *creator_authority, *system_program, *rent]);
    let metadata_ix = create_metadata_v3(
        &keys,
        &token_metadata.name,
        &token_metadata.symbol,
        &uri,
        0,
        Some(true),
        remaining,
    );
    let mut edition_keys: Vec<Pubkey> = Vec::new();
    edition_keys.push(*edition);
    edition_keys.push(*mint);
    edition_keys.push(*creator_authority);
    edition_keys.push(*mint);
    edition_keys.push(*payer);
    edition_keys.push(*metadata);
    edition_keys.push(*token_program);
    edition_keys.push(*system_program);
    edition_keys.push(*rent);
    assert(edition_keys@ =~= seq![
        *edition,
        *mint,
        *creator_authority,
        *mint,
        *payer,
        *metadata,
        *token_program,
        *system_program,
        *rent,
    ]);
    let edition_ix = create_master_edition_v3(&edition_keys, 0, remaining);
    CollectionInstructions { metadata: metadata_ix, master_edition: edition_ix }
}

} // verus!

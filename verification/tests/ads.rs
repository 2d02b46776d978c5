use curve25519_dalek::edwards::EdwardsPoint;
use curve25519_dalek::scalar::Scalar;
use sha2::{Digest, Sha512};
use xshare::ads::{
    create_ad, delete_ad_campaign, delete_ad_spot, prepare_delete_ad_campaign, record_minted_ad,
    record_minted_campaign, record_minted_spot, register_ad_campaign, register_ad_creator,
    register_ad_space, register_ad_spot, register_space_creator,
};
use xshare::ascii::{encode_bytes_to_ascii_string, encode_u64_to_ascii_string};
use xshare::codec::campaign_config_to_bytes;
use xshare::error::ProgramError;
use xshare::hashes::cyrb53_bytes;
use xshare::layout::PROGRAM_ID;
use xshare::types::{
    AccountClass, AccountInfo, AdBudget, AdConfig, AdCreator, AdSpace, AdSpot, AssetBundler,
    AssetSource, CampaignConfig, PermissionType, SpaceCreator, Store,
};

fn store(manager: [u8; 32]) -> Store {
    Store {
        class: AccountClass::StoreV1,
        creator: [0; 32],
        universe: [0; 32],
        slot: 0,
        store_hash: 55,
        master: [0; 32],
        master_manager: manager,
        living_campaigns: 3,
        living_spots: 3,
        extra: [0; 144],
    }
}

fn ad_creator() -> AdCreator {
    AdCreator {
        class: AccountClass::AdCreatorV1,
        creator: [0; 32],
        store_hash: 0,
        created_spots: 94,
        living_spots: 2,
        created_bids: 0,
        living_bids: 0,
        spent: 0,
        creator_manager: [0; 32],
        extra: [0; 136],
    }
}

fn space_creator() -> SpaceCreator {
    SpaceCreator {
        class: AccountClass::SpaceCreatorV1,
        creator: [21; 32],
        store_hash: 0,
        created: 1,
        living: 2,
        earning: 0,
        creator_manager: [22; 32],
        extra: [0; 144],
    }
}

fn signing_key(seed: [u8; 32]) -> (Scalar, [u8; 32], [u8; 32]) {
    let h = Sha512::digest(seed);
    let mut a = [0u8; 32];
    a.copy_from_slice(&h[..32]);
    a[0] &= 248;
    a[31] &= 127;
    a[31] |= 64;
    let a = Scalar::from_bytes_mod_order(a);
    let mut prefix = [0u8; 32];
    prefix.copy_from_slice(&h[32..]);
    (a, prefix, EdwardsPoint::mul_base(&a).compress().to_bytes())
}

fn wide(d: &[u8]) -> Scalar {
    let mut w = [0u8; 64];
    w.copy_from_slice(d);
    Scalar::from_bytes_mod_order_wide(&w)
}

fn sign(seed: [u8; 32], msg: &[u8]) -> ([u8; 64], [u8; 32]) {
    let (a, prefix, public) = signing_key(seed);
    let r = wide(&Sha512::new().chain_update(prefix).chain_update(msg).finalize());
    let big_r = EdwardsPoint::mul_base(&r).compress().to_bytes();
    let k = wide(&Sha512::new().chain_update(big_r).chain_update(public).chain_update(msg).finalize());
    let s = r + k * a;
    let mut sig = [0u8; 64];
    sig[..32].copy_from_slice(&big_r);
    sig[32..].copy_from_slice(&s.to_bytes());
    (sig, public)
}

fn stamp(clock: u32) -> String {
    let mut p = vec![0u8];
    p.extend_from_slice(&clock.to_le_bytes());
    encode_bytes_to_ascii_string(&p, true)
}

fn program() -> solana_program::pubkey::Pubkey {
    solana_program::pubkey::Pubkey::new_from_array(PROGRAM_ID)
}

fn creator_bytes(entries: &[([u8; 32], u8)]) -> Vec<Vec<u8>> {
    entries
        .iter()
        .map(|(k, share)| {
            let mut v = k.to_vec();
            v.push(0);
            v.push(*share);
            v
        })
        .collect()
}

#[test]
fn a_manager_is_topped_up_to_its_reserve() {
    let mut a = ad_creator();
    let manager = AccountInfo { key: [8; 32], lamports: 100, data: vec![] };
    let top_up = register_ad_creator(&mut a, &[1; 32], &[2; 32], Some(&manager), 890_880);
    assert_eq!(top_up, 890_880 + 30_000 - 100);
    assert_eq!(a.creator_manager, [8; 32]);
    assert_eq!(a.creator, [1; 32]);
    assert_eq!(a.store_hash, cyrb53_bytes(&[2; 32], 0));
    let rich = AccountInfo { key: [9; 32], lamports: 10_000_000, data: vec![] };
    assert_eq!(register_ad_creator(&mut a, &[1; 32], &[2; 32], Some(&rich), 890_880), 0);
    let mut b = ad_creator();
    b.creator_manager = [7; 32];
    assert_eq!(register_ad_creator(&mut b, &[1; 32], &[2; 32], None, 890_880), 0);
    assert_eq!(b.creator_manager, [7; 32]);
    assert_eq!(b.class, AccountClass::AdCreatorV1);
}

#[test]
fn registering_space_creators_and_spaces() {
    let mut sc = space_creator();
    register_space_creator(&mut sc, &[1; 32], &[2; 32], &[3; 32]);
    assert_eq!((sc.creator, sc.creator_manager), ([1; 32], [3; 32]));
    assert_eq!(sc.store_hash, cyrb53_bytes(&[2; 32], 0));
    let mut space = AdSpace { class: AccountClass::UniverseV1, creator: [0; 32], store_hash: 0, slot: 0, extra: [0; 188] };
    register_ad_space(&mut space, &[1; 32], &[2; 32], 6);
    assert_eq!((space.class, space.slot), (AccountClass::AdSpaceV1, 6));
}

#[test]
fn a_spot_nft_points_at_its_asset() {
    let mut spot = AdSpot { class: AccountClass::UniverseV1, store_hash: 0, creator: [0; 32], slot: 0, live_bids: 0, extra: [0; 192] };
    let a = ad_creator();
    let source = AssetSource { arweave: "abc".to_string(), asset_bundler: AssetBundler::Arweave };
    let m = register_ad_spot(&mut spot, &[4; 32], &[1; 32], &[2; 32], &a, &[3; 32], &[5; 32], 9, &source, 7);
    assert_eq!(spot.slot, 9);
    assert_eq!(spot.class, AccountClass::AdSpotV1);
    assert_eq!(m.name, "Space V0");
    assert_eq!(m.symbol, encode_u64_to_ascii_string(94));
    assert_eq!(m.symbol, "\"!");
    assert_eq!(m.uri, format!("https://arweave.net/abc?p={}", stamp(7)));
    let addresses: Vec<[u8; 32]> = m.creators.iter().map(|c| c.address).collect();
    assert_eq!(addresses, vec![[1; 32], [3; 32], [4; 32]]);
    let raw = AssetSource { arweave: "x.io/a".to_string(), asset_bundler: AssetBundler::Raw };
    let m = register_ad_spot(&mut spot, &[4; 32], &[1; 32], &[2; 32], &a, &[3; 32], &[5; 32], 9, &raw, 7);
    assert!(m.uri.starts_with("https://x.io/a?p="));
    let irys = AssetSource { arweave: "id".to_string(), asset_bundler: AssetBundler::IrysGateway };
    let m = register_ad_spot(&mut spot, &[4; 32], &[1; 32], &[2; 32], &a, &[3; 32], &[5; 32], 9, &irys, 7);
    assert!(m.uri.starts_with("https://gateway.irys.xyz/id?p="));
}

#[test]
fn minting_a_spot_counts_it_and_names_the_newest_leaf() {
    let mut tree = vec![0u8; 96];
    tree[80..88].copy_from_slice(&5u64.to_le_bytes());
    let mut a = ad_creator();
    let mut s = store([0; 32]);
    let id = record_minted_spot(&tree, &[6; 32], &mut a, &mut s).unwrap();
    let expected = mpl_bubblegum::utils::get_asset_id(&solana_program::pubkey::Pubkey::new_from_array([6; 32]), 4);
    assert_eq!(id, expected.to_bytes());
    assert_eq!((a.created_spots, a.living_spots, s.living_spots), (95, 3, 4));
    let mut sc = space_creator();
    let id2 = record_minted_campaign(&tree, &[6; 32], &mut sc, &mut s).unwrap();
    assert_eq!(id2, id);
    assert_eq!((sc.created, sc.living, s.living_campaigns), (2, 3, 4));
}

#[test]
fn the_asset_id_is_the_bubblegum_address_of_the_leaf() {
    let mut tree = vec![0u8; 88];
    tree[80..88].copy_from_slice(&1u64.to_le_bytes());
    let bubblegum = solana_program::pubkey::Pubkey::new_from_array(xshare::layout::BUBBLEGUM_ID);
    assert_eq!(xshare::layout::BUBBLEGUM_ID, mpl_bubblegum::ID.to_bytes());
    let (expected, _) = solana_program::pubkey::Pubkey::find_program_address(
        &[b"asset", &[9; 32], &0u64.to_le_bytes()],
        &bubblegum,
    );
    assert_eq!(xshare::ads::newest_asset_id(&tree, &[9; 32]), Ok(expected.to_bytes()));
    assert_ne!(expected.to_bytes(), [9; 32]);
}

#[test]
fn deleting_a_spot_restores_the_living_counts() {
    let mut tree = vec![0u8; 88];
    tree[80] = 3;
    let mut a = ad_creator();
    let mut s = store([0; 32]);
    let (living, created, store_living) = (a.living_spots, a.created_spots, s.living_spots);
    record_minted_spot(&tree, &[6; 32], &mut a, &mut s).unwrap();
    let spot = AdSpot { class: AccountClass::AdSpotV1, store_hash: 0, creator: [1; 32], slot: 0, live_bids: 0, extra: [0; 192] };
    delete_ad_spot(&spot, &[4; 32], &[1; 32], &mut a, &[3; 32], &mut s).unwrap();
    assert_eq!((a.living_spots, a.created_spots, s.living_spots), (living, created + 1, store_living));
}

#[test]
fn a_spot_with_live_bids_is_not_deleted() {
    let spot = AdSpot { class: AccountClass::AdSpotV1, store_hash: 0, creator: [0; 32], slot: 0, live_bids: 1, extra: [0; 192] };
    let mut a = ad_creator();
    let mut s = store([0; 32]);
    assert_eq!(delete_ad_spot(&spot, &[4; 32], &[1; 32], &mut a, &[3; 32], &mut s), Err(ProgramError::InvalidArgument));
    assert_eq!((a.living_spots, s.living_spots), (2, 3));
}

#[test]
fn deleting_a_spot_hashes_its_creators() {
    let spot = AdSpot { class: AccountClass::AdSpotV1, store_hash: 0, creator: [0; 32], slot: 0, live_bids: 0, extra: [0; 192] };
    let mut a = ad_creator();
    let mut s = store([0; 32]);
    let h = delete_ad_spot(&spot, &[4; 32], &[1; 32], &mut a, &[3; 32], &mut s).unwrap();
    let parts = creator_bytes(&[([1; 32], 100), ([3; 32], 0), ([4; 32], 0)]);
    let slices: Vec<&[u8]> = parts.iter().map(|p| p.as_slice()).collect();
    assert_eq!(h, solana_program::keccak::hashv(&slices).to_bytes());
    assert_eq!((a.living_spots, s.living_spots), (1, 2));
}

#[test]
fn deleting_a_campaign_hashes_its_creators_with_the_handle() {
    let mut data = vec![0u8; 222];
    data[49..81].copy_from_slice(&[77; 32]);
    let campaign = AccountInfo { key: [11; 32], lamports: 0, data };
    let mut s = store([0; 32]);
    let mut sc = space_creator();
    let h = delete_ad_campaign(&campaign, &[1; 32], &[2; 32], &mut s, &mut sc, &[3; 32]).unwrap();
    let (twitter, _) = solana_program::pubkey::Pubkey::find_program_address(&[b"twitter", &[2; 32], &[77; 32]], &program());
    let parts = creator_bytes(&[([1; 32], 100), ([3; 32], 0), ([11; 32], 0), (twitter.to_bytes(), 0)]);
    let slices: Vec<&[u8]> = parts.iter().map(|p| p.as_slice()).collect();
    assert_eq!(h, solana_program::keccak::hashv(&slices).to_bytes());
    assert_eq!((sc.living, s.living_campaigns), (1, 2));
}

#[test]
fn preparing_a_campaign_deletion() {
    let s = store([9; 32]);
    let sc = space_creator();
    let mut campaign = vec![0u8; 222];
    let mut tracks = vec![5u8; 200];
    assert_eq!(prepare_delete_ad_campaign(&s, &sc, &[1; 32], &campaign, &mut tracks), Err(ProgramError::InvalidAccountOwner));
    campaign[213] = 1;
    assert_eq!(prepare_delete_ad_campaign(&s, &sc, &[22; 32], &campaign, &mut tracks), Err(ProgramError::InvalidInstructionData));
    assert_eq!(tracks, vec![5u8; 200]);
    campaign[213] = 0;
    prepare_delete_ad_campaign(&s, &sc, &[21; 32], &campaign, &mut tracks).unwrap();
    assert_eq!(tracks.len(), 118);
    assert_eq!(tracks[89], 10);
    assert_eq!(tracks[88], 5);
}

fn campaign_config() -> CampaignConfig {
    CampaignConfig {
        max_seconds: 30,
        permission: PermissionType::VerifiedPass,
        categories: [1; 16],
        currency: [0; 32],
        max_bidders: 8,
    }
}

#[test]
fn a_campaign_needs_the_master_managers_signature() {
    let (sig, public) = sign([42; 32], b"something else");
    let s = store(public);
    let mut campaign = AccountInfo { key: [11; 32], lamports: 0, data: vec![0u8; 222] };
    let mut tracks = vec![0u8; 140];
    let source = AssetSource { arweave: "c".to_string(), asset_bundler: AssetBundler::Arweave };
    let r = register_ad_campaign(
        &mut campaign, &mut tracks, &s, &[2; 32], &[1; 32], &space_creator(), &[3; 32], &[5; 32],
        &sig, 4, &campaign_config(), &[77; 32], &source, 9,
    );
    assert_eq!(r.err(), Some(ProgramError::InvalidAccountOwner));
    assert_eq!(campaign.data, vec![0u8; 222]);
    assert_eq!(tracks, vec![0u8; 140]);
}

#[test]
fn registering_a_campaign_writes_it_and_its_tracks() {
    let mut twitter = [0u8; 32];
    twitter[..5].copy_from_slice(b"alice");
    let mut message = [1u8; 32].to_vec();
    message.extend_from_slice(&twitter);
    let (sig, public) = sign([42; 32], &message);
    let s = store(public);
    let mut campaign = AccountInfo { key: [11; 32], lamports: 0, data: vec![0u8; 222] };
    let mut tracks = vec![0u8; 140];
    let source = AssetSource { arweave: "c".to_string(), asset_bundler: AssetBundler::Arweave };
    let m = register_ad_campaign(
        &mut campaign, &mut tracks, &s, &[2; 32], &[1; 32], &space_creator(), &[3; 32], &[5; 32],
        &sig, 4, &campaign_config(), &twitter, &source, 9,
    )
    .unwrap();
    let store_hash = cyrb53_bytes(&[2; 32], 0);
    let d = &campaign.data;
    assert_eq!(d[8], 7);
    assert_eq!(&d[9..17], &store_hash.to_le_bytes());
    assert_eq!(&d[17..49], &[1u8; 32]);
    assert_eq!(&d[49..81], &twitter);
    assert_eq!(&d[81..85], &4u32.to_le_bytes());
    assert_eq!(&d[109..161], campaign_config_to_bytes(&campaign_config()).as_slice());
    assert_eq!(&tracks[0..9], &[58, 182, 194, 237, 251, 44, 148, 79, 12]);
    assert_eq!(&tracks[9..17], &store_hash.to_le_bytes());
    assert_eq!(&tracks[17..49], &[1u8; 32]);
    assert_eq!(&tracks[49..81], &[11u8; 32]);
    assert_eq!(tracks[89], 9);
    let mut payload = vec![0u8];
    payload.extend_from_slice(&9u32.to_le_bytes());
    payload.extend_from_slice(&[2, 30, 5]);
    payload.extend_from_slice(b"alice");
    assert_eq!(m.uri, format!("https://arweave.net/c?p={}", encode_bytes_to_ascii_string(&payload, true)));
    assert_eq!(m.name, "Space V0");
    assert_eq!(m.symbol, encode_u64_to_ascii_string(1));
    let (handle, _) = solana_program::pubkey::Pubkey::find_program_address(&[b"twitter", &[2; 32], &twitter], &program());
    let addresses: Vec<[u8; 32]> = m.creators.iter().map(|c| c.address).collect();
    assert_eq!(addresses, vec![[1; 32], [3; 32], [11; 32], handle.to_bytes()]);
}

#[test]
fn an_ad_nft_and_its_accounts() {
    let a = ad_creator();
    let mut arweave = [0u8; 50];
    arweave[..4].copy_from_slice(b"/pic");
    let cfg = AdConfig { category: 3, budget: AdBudget { total: 10, daily: 2 }, asset_bundler: AssetBundler::Arweave, arweave };
    let m = create_ad(&a, &[3; 32], &[4; 32], &[1; 32], &[5; 32], &cfg, 9);
    assert_eq!(m.name, "Ad V0");
    assert_eq!(m.uri, format!("https://arweave.net/pic?p={}", encode_bytes_to_ascii_string(&9u32.to_le_bytes(), true)));
    assert_eq!(m.uri, "https://arweave.net/pic?p=9000");
    let mut tree = vec![0u8; 88];
    tree[80] = 1;
    let mut a = ad_creator();
    let mut ad = vec![0u8; 403];
    let mut stats = vec![1u8; 90];
    let s = store([0; 32]);
    let id = record_minted_ad(&tree, &[6; 32], &mut a, &mut ad, &[4; 32], &mut stats, &[1; 32], &s, 12, &cfg).unwrap();
    assert_eq!((a.created_spots, a.living_spots), (95, 3));
    assert_eq!(&ad[8..10], &[4, 1]);
    assert_eq!(&ad[10..42], &[1u8; 32]);
    assert_eq!(&ad[42..50], &55u64.to_le_bytes());
    assert_eq!(&ad[50..58], &12u64.to_le_bytes());
    assert_eq!(&ad[58..90], &id);
    assert_eq!(ad[90], 3);
    assert_eq!(&stats[8..10], &[6, 1]);
    assert_eq!(&stats[10..42], &[4u8; 32]);
    assert_eq!(&stats[42..82], &[0u8; 40]);
    assert_eq!(stats[82], 1);
}

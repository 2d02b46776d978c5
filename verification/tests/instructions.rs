use xshare::base::{create_collection, create_master, create_store, create_universe};
use xshare::cnft::{
    burn_cnft, create_master_edition_v3, metadata_args_to_bytes, mint_cnft, mint_to_collection_cnft,
    verify_leaf, AccountMeta, MPL_METADATA_ID,
};
use xshare::hashes::cyrb53_bytes;
use xshare::metadata::{collection_nft, create_nft_to_metadata};
use xshare::types::{
    AccountClass, AssetBundler, Collection, CreateCnft, Creator, Master, MetadataArgs, Store,
    TokenMetadata, TokenProgramVersion, TokenStandard, Universe, UseMethod, Uses,
};

fn small_metadata() -> MetadataArgs {
    collection_nft(
        "N".to_string(),
        "S".to_string(),
        "u".to_string(),
        vec![Creator { address: [1; 32], verified: false, share: 100 }],
        &[2; 32],
    )
}

#[test]
fn metadata_layout() {
    let b = metadata_args_to_bytes(&small_metadata());
    let mut expected = vec![1, 0, 0, 0, b'N', 1, 0, 0, 0, b'S', 1, 0, 0, 0, b'u', 0, 0, 0, 1, 0, 1, 0, 1, 1];
    expected.extend_from_slice(&[2; 32]);
    expected.extend_from_slice(&[0, 0, 1, 0, 0, 0]);
    expected.extend_from_slice(&[1; 32]);
    expected.extend_from_slice(&[0, 100]);
    assert_eq!(b, expected);
}

#[test]
fn metadata_layout_with_every_option() {
    let m = MetadataArgs {
        name: String::new(),
        symbol: String::new(),
        uri: String::new(),
        seller_fee_basis_points: 0x0102,
        primary_sale_happened: true,
        is_mutable: false,
        edition_nonce: Some(7),
        token_standard: Some(TokenStandard::NonFungibleEdition),
        collection: None,
        uses: Some(Uses { use_method: UseMethod::Single, remaining: 1, total: 2 }),
        token_program_version: TokenProgramVersion::Token2022,
        creators: vec![],
    };
    let b = metadata_args_to_bytes(&m);
    let mut expected = vec![0u8; 12];
    expected.extend_from_slice(&[2, 1, 1, 0, 1, 7, 1, 3, 0, 1, 2]);
    expected.extend_from_slice(&1u64.to_le_bytes());
    expected.extend_from_slice(&2u64.to_le_bytes());
    expected.extend_from_slice(&[1, 0, 0, 0, 0]);
    assert_eq!(b, expected);
}

#[test]
fn a_described_nft_becomes_mutable_non_fungible_metadata() {
    let c = CreateCnft {
        name: "a".to_string(),
        symbol: "b".to_string(),
        uri: "c".to_string(),
        fee: 250,
        creators: vec![],
        collection: Some(Collection { verified: false, key: [3; 32] }),
    };
    let m = create_nft_to_metadata(c);
    assert_eq!(m.seller_fee_basis_points, 250);
    assert!(m.is_mutable && !m.primary_sale_happened);
    assert_eq!(m.token_standard, Some(TokenStandard::NonFungible));
    assert_eq!(m.collection, Some(Collection { verified: false, key: [3; 32] }));
}

fn keys(n: u8) -> Vec<[u8; 32]> {
    (0..n).map(|i| [i + 1; 32]).collect()
}

#[test]
fn mint_into_a_collection() {
    let ix = mint_to_collection_cnft(&[99; 32], &keys(16), &small_metadata(), &vec![[50; 32]]);
    assert_eq!(ix.program_id, [99; 32]);
    assert_eq!(ix.accounts.len(), 17);
    assert_eq!(ix.accounts[0], AccountMeta { pubkey: [1; 32], is_signer: false, is_writable: true });
    assert_eq!(ix.accounts[4], AccountMeta { pubkey: [5; 32], is_signer: true, is_writable: false });
    assert_eq!(ix.accounts[9], AccountMeta { pubkey: [10; 32], is_signer: false, is_writable: true });
    assert_eq!(ix.accounts[16], AccountMeta { pubkey: [50; 32], is_signer: true, is_writable: false });
    assert_eq!(&ix.data[..8], &[153, 18, 178, 47, 197, 158, 86, 15]);
    assert_eq!(&ix.data[8..], metadata_args_to_bytes(&small_metadata()).as_slice());
}

#[test]
fn plain_mint() {
    let ix = mint_cnft(&[99; 32], &keys(9), &small_metadata(), &vec![]);
    assert_eq!(ix.accounts.len(), 9);
    assert_eq!(ix.accounts[5], AccountMeta { pubkey: [6; 32], is_signer: true, is_writable: false });
    assert_eq!(&ix.data[..8], &[145, 98, 192, 118, 184, 147, 118, 104]);
}

#[test]
fn burn_data_names_the_leaf() {
    let ix = burn_cnft(&[99; 32], &keys(7), &[1; 32], &[2; 32], &[3; 32], 5, 6, &vec![[60; 32], [61; 32]]);
    assert_eq!(ix.accounts.len(), 9);
    assert_eq!(ix.accounts[2], AccountMeta { pubkey: [3; 32], is_signer: true, is_writable: false });
    assert_eq!(ix.accounts[3], AccountMeta { pubkey: [4; 32], is_signer: false, is_writable: true });
    assert_eq!(ix.accounts[8], AccountMeta { pubkey: [61; 32], is_signer: false, is_writable: false });
    let mut expected = vec![116, 110, 29, 56, 107, 219, 42, 93];
    expected.extend_from_slice(&[1; 32]);
    expected.extend_from_slice(&[2; 32]);
    expected.extend_from_slice(&[3; 32]);
    expected.extend_from_slice(&5u64.to_le_bytes());
    expected.extend_from_slice(&6u32.to_le_bytes());
    assert_eq!(ix.data, expected);
}

#[test]
fn verifying_a_leaf() {
    let ix = verify_leaf(&[98; 32], &[7; 32], &[1; 32], &[2; 32], 3, &vec![[9; 32]]);
    assert_eq!(ix.program_id, [98; 32]);
    assert_eq!(ix.accounts, vec![
        AccountMeta { pubkey: [7; 32], is_signer: false, is_writable: false },
        AccountMeta { pubkey: [9; 32], is_signer: false, is_writable: false },
    ]);
    let mut expected = vec![124, 220, 22, 223, 104, 10, 250, 224];
    expected.extend_from_slice(&[2; 32]);
    expected.extend_from_slice(&[1; 32]);
    expected.extend_from_slice(&3u32.to_le_bytes());
    assert_eq!(ix.data, expected);
}

#[test]
fn master_edition_data() {
    let ix = create_master_edition_v3(&keys(9), 7, &vec![]);
    assert_eq!(ix.program_id, MPL_METADATA_ID);
    assert_eq!(ix.data, vec![17, 1, 7, 0, 0, 0, 0, 0, 0, 0]);
    assert_eq!(ix.accounts[4], AccountMeta { pubkey: [5; 32], is_signer: true, is_writable: true });
}

#[test]
fn the_collection_instructions() {
    let tm = TokenMetadata {
        name: "Col".to_string(),
        symbol: "C".to_string(),
        arweave: "xyz".to_string(),
        asset_bundler: AssetBundler::IrysGateway,
    };
    let ix = create_collection(&tm, &[1; 32], &[2; 32], &[3; 32], &[4; 32], &[5; 32], &[6; 32], &[7; 32], &[8; 32], &vec![]);
    let uri = "https://gateway.irys.xyz/xyz";
    let mut expected = vec![33, 3, 0, 0, 0, b'C', b'o', b'l', 1, 0, 0, 0, b'C'];
    expected.extend_from_slice(&(uri.len() as u32).to_le_bytes());
    expected.extend_from_slice(uri.as_bytes());
    expected.extend_from_slice(&[0, 0, 1, 1, 0, 0, 0]);
    expected.extend_from_slice(&[3; 32]);
    expected.extend_from_slice(&[0, 100, 0, 0, 1, 1, 0, 0, 0, 0, 0, 0, 0, 0, 0]);
    assert_eq!(ix.metadata.data, expected);
    assert_eq!(ix.metadata.accounts[1].pubkey, [1; 32]);
    assert_eq!(ix.metadata.accounts[2], AccountMeta { pubkey: [1; 32], is_signer: true, is_writable: false });
    assert_eq!(ix.metadata.accounts[5].pubkey, [7; 32]);
    assert_eq!(ix.metadata.accounts[6].pubkey, [6; 32]);
    assert_eq!(ix.master_edition.data, vec![17, 1, 0, 0, 0, 0, 0, 0, 0, 0]);
    assert_eq!(ix.master_edition.accounts[0].pubkey, [5; 32]);
    assert_eq!(ix.master_edition.accounts[8].pubkey, [6; 32]);
}

#[test]
fn universes_masters_and_stores() {
    let mut u = Universe { class: AccountClass::StoreV1, slot: 0, creator: [0; 32], universe_hash: 0, count: 4, extra: [0; 192] };
    create_universe(&mut u, &[1; 32], &[2; 32], 3);
    assert_eq!((u.class, u.slot, u.creator, u.count), (AccountClass::UniverseV1, 3, [2; 32], 4));
    assert_eq!(u.universe_hash, cyrb53_bytes(&[1; 32], 0));
    let mut m = Master { class: AccountClass::StoreV1, slot: 0, universe_hash: 0, manager: [0; 32], extra: [0; 32] };
    create_master(&mut m, &[5; 32], &[1; 32], 2);
    assert_eq!((m.class, m.manager, m.universe_hash), (AccountClass::MasterV1, [5; 32], u.universe_hash));
    let mut s = Store {
        class: AccountClass::UniverseV1,
        creator: [0; 32],
        universe: [0; 32],
        slot: 0,
        store_hash: 0,
        master: [0; 32],
        master_manager: [0; 32],
        living_campaigns: 0,
        living_spots: 0,
        extra: [0; 144],
    };
    create_store(&mut u, &[1; 32], &mut s, &[7; 32], &m, &[8; 32], &[2; 32], 1);
    assert_eq!(u.count, 5);
    assert_eq!((s.class, s.master, s.master_manager, s.universe), (AccountClass::StoreV1, [8; 32], [5; 32], [1; 32]));
    assert_eq!(s.store_hash, cyrb53_bytes(&[7; 32], 0));
}

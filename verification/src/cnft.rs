//! The instructions the program sends to Bubblegum, the account-compression
//! program and Token Metadata: which accounts each names, in which roles,
//! and the bytes of its data, with the metadata of a compressed NFT in its
//! binary (Borsh) layout.
use crate::bytes::{le16, le32, le64};
use crate::codec::{bool_byte, extend_bytes, string_bytes, string_to_bytes};
use crate::metadata::creator_leaf_bytes;
use crate::types::{
    Collection, Creator, MetadataArgs, Pubkey, TokenProgramVersion, TokenStandard, UseMethod, Uses,
};
use vstd::bytes::{u16_to_le_bytes, u32_to_le_bytes, u64_to_le_bytes};
use vstd::prelude::*;
use vstd::utf8::encode_utf8;

verus! {

/// The Token Metadata program's address.
pub const MPL_METADATA_ID: [u8; 32] = [
    11, 112, 101, 177, 227, 209, 124, 69, 56, 157, 82, 127, 107, 4, 195, 205, 88, 184, 108, 115, 26,
    160, 253, 181, 73, 182, 209, 188, 3, 248, 41, 70,
];

/// The no-op (log wrapper) program's address.
pub const NOOP_ID: [u8; 32] = [
    11, 188, 15, 192, 187, 71, 202, 47, 116, 196, 17, 46, 148, 171, 19, 207, 163, 198, 52, 229, 220,
    23, 234, 203, 3, 205, 26, 35, 205, 126, 120, 124,
];

/// The account-compression program's address.
pub const SPL_ACCOUNT_COMPRESSION: [u8; 32] = [
    9, 42, 19, 238, 149, 196, 28, 186, 8, 166, 127, 90, 198, 126, 141, 247, 225, 218, 17, 98, 94, 29,
    100, 19, 127, 143, 79, 35, 131, 3, 127, 20,
];

/// Bubblegum's `mint_to_collection_v1` instruction.
pub const MINT_TO_COLLECTION_DISCRIMINATOR: [u8; 8] = [153, 18, 178, 47, 197, 158, 86, 15];

/// Bubblegum's `mint_v1` instruction.
pub const MINT_DISCRIMINATOR: [u8; 8] = [145, 98, 192, 118, 184, 147, 118, 104];

/// Bubblegum's `burn` instruction.
pub const BURN_DISCRIMINATOR: [u8; 8] = [116, 110, 29, 56, 107, 219, 42, 93];

/// The account-compression program's `verify_leaf` instruction.
pub const VERIFY_LEAF_DISCRIMINATOR: [u8; 8] = [124, 220, 22, 223, 104, 10, 250, 224];

/// Token Metadata's `create_metadata_account_v3` instruction.
pub const CREATE_METADATA_V3_TAG: u8 = 33;

/// Token Metadata's `create_master_edition_v3` instruction.
pub const CREATE_MASTER_EDITION_V3_TAG: u8 = 17;

/// An account an instruction names, and its role.
#[derive(Debug, Clone, Copy, PartialEq, Eq)]
pub struct AccountMeta {
    pub pubkey: Pubkey,
    pub is_signer: bool,
    pub is_writable: bool,
}

/// An instruction to another program.
#[derive(Debug, Clone, PartialEq, Eq)]
pub struct Instruction {
    pub program_id: Pubkey,
    pub accounts: Vec<AccountMeta>,
    pub data: Vec<u8>,
}

/// A writable account (`signer` when it signs).
pub open spec fn writable(k: Pubkey, signer: bool) -> AccountMeta {
    AccountMeta { pubkey: k, is_signer: signer, is_writable: true }
}

/// A read-only account (`signer` when it signs).
pub open spec fn readonly(k: Pubkey, signer: bool) -> AccountMeta {
    AccountMeta { pubkey: k, is_signer: signer, is_writable: false }
}

fn meta(k: &Pubkey, is_signer: bool, is_writable: bool) -> (m: AccountMeta)
    ensures
        m == (AccountMeta { pubkey: *k, is_signer, is_writable }),
{
    AccountMeta { pubkey: *k, is_signer, is_writable }
}

/// The extra accounts (a merkle proof) appended read-only to an instruction.
pub open spec fn extra_metas(remaining: Seq<Pubkey>, signer: bool) -> Seq<AccountMeta> {
    remaining.map_values(|k: Pubkey| readonly(k, signer))
}

fn push_extra(accounts: &mut Vec<AccountMeta>, remaining: &Vec<Pubkey>, signer: bool)
    ensures
        final(accounts)@ == old(accounts)@ + extra_metas(remaining@, signer),
{
    let ghost start = accounts@;
    let mut i: usize = 0;
    while i < remaining.len()
        invariant
            i <= remaining@.len(),
            accounts@ =~= start + extra_metas(remaining@.take(i as int), signer),
        decreases remaining@.len() - i,
    {
        accounts.push(meta(&remaining[i], signer, false));
        i = i + 1;
        assert(accounts@ =~= start + extra_metas(remaining@.take(i as int), signer));
    }
    assert(remaining@.take(remaining@.len() as int) =~= remaining@);
}

/// The encoding of an optional value: 0 for none, else 1 and the value.
pub open spec fn option_bytes(present: bool, value: Seq<u8>) -> Seq<u8> {
    if present {
        seq![1u8] + value
    } else {
        seq![0u8]
    }
}

/// The tag of a token standard.
pub open spec fn token_standard_code(t: TokenStandard) -> u8 {
    match t {
        TokenStandard::NonFungible => 0,
        TokenStandard::FungibleAsset => 1,
        TokenStandard::Fungible => 2,
        TokenStandard::NonFungibleEdition => 3,
    }
}

/// The tag of a use method.
pub open spec fn use_method_code(u: UseMethod) -> u8 {
    match u {
        UseMethod::Burn => 0,
        UseMethod::Multiple => 1,
        UseMethod::Single => 2,
    }
}

/// The encoding of a collection.
pub open spec fn collection_bytes(c: Collection) -> Seq<u8> {
    seq![bool_byte(c.verified)] + c.key@
}

/// The encoding of uses.
pub open spec fn uses_bytes(u: Uses) -> Seq<u8> {
    seq![use_method_code(u.use_method)] + le64(u.remaining) + le64(u.total)
}

/// The encoding of a list of creators: their number as a little-endian
/// `u32`, then each creator's address, whether it signed, and its share.
pub open spec fn creators_bytes(creators: Seq<Creator>) -> Seq<u8> {
    le32(creators.len() as u32) + creators.map_values(|c: Creator| creator_leaf_bytes(c)).flatten()
}

/// The binary layout of a compressed NFT's metadata: its fields in order.
pub open spec fn metadata_args_bytes(m: MetadataArgs) -> Seq<u8> {
    string_bytes(m.name@) + string_bytes(m.symbol@) + string_bytes(m.uri@) + le16(m.seller_fee_basis_points)
        + seq![bool_byte(m.primary_sale_happened), bool_byte(m.is_mutable)] + option_bytes(
        m.edition_nonce is Some,
        seq![m.edition_nonce->0],
    ) + option_bytes(m.token_standard is Some, seq![token_standard_code(m.token_standard->0)])
        + option_bytes(m.collection is Some, collection_bytes(m.collection->0)) + option_bytes(
        m.uses is Some,
        uses_bytes(m.uses->0),
    ) + seq![
        match m.token_program_version {
            TokenProgramVersion::Original => 0u8,
            TokenProgramVersion::Token2022 => 1u8,
        },
    ] + creators_bytes(m.creators@)
}

/// Whether a metadata record can be encoded: each text's UTF-8 length and
/// the number of creators fit a `u32`.
pub open spec fn metadata_encodable(m: MetadataArgs) -> bool {
    &&& encode_utf8(m.name@).len() <= u32::MAX
    &&& encode_utf8(m.symbol@).len() <= u32::MAX
    &&& encode_utf8(m.uri@).len() <= u32::MAX
    &&& m.creators@.len() <= u32::MAX
}

fn push_creators(r: &mut Vec<u8>, creators: &Vec<Creator>)
    requires
        creators@.len() <= u32::MAX,
    ensures
        final(r)@ == old(r)@ + creators_bytes(creators@),
{
    let ghost start = r@;
    extend_bytes(r, u32_to_le_bytes(creators.len() as u32).as_slice());
    let ghost mid = r@;
    let mut i: usize = 0;
    while i < creators.len()
        invariant
            i <= creators@.len(),
            r@ =~= mid + creators@.take(i as int).map_values(|c: Creator| creator_leaf_bytes(c)).flatten(),
        decreases creators@.len() - i,
    {
        let c = &creators[i];
        let ghost before = r@;
        extend_bytes(r, c.address.as_slice());
        r.push(if c.verified { 1u8 } else { 0u8 });
        r.push(c.share);
        proof {
            let f = |c: Creator| creator_leaf_bytes(c);
            let t = creators@.take(i as int);
            let t1 = creators@.take(i + 1);
            assert(t1 =~= t.push(creators@[i as int]));
            assert(t1.map_values(f) =~= t.map_values(f).push(f(creators@[i as int])));
            t.map_values(f).lemma_flatten_push(f(creators@[i as int]));
            assert(r@ =~= before + f(creators@[i as int]));
        }
        i = i + 1;
    }
    assert(creators@.take(creators@.len() as int) =~= creators@);
}

fn option_u8_to_bytes(o: Option<u8>) -> (r: Vec<u8>)
    ensures
        r@ == option_bytes(o is Some, seq![o->0]),
{
    let mut r: Vec<u8> = Vec::new();
    match o {
        Some(n) => {
            r.push(1);
            r.push(n);
        },
        None => r.push(0),
    }
    assert(r@ =~= option_bytes(o is Some, seq![o->0]));
    r
}

fn token_standard_to_bytes(o: Option<TokenStandard>) -> (r: Vec<u8>)
    ensures
        r@ == option_bytes(o is Some, seq![token_standard_code(o->0)]),
{
    let mut r: Vec<u8> = Vec::new();
    match o {
        Some(t) => {
            r.push(1);
            r.push(
                match t {
                    TokenStandard::NonFungible => 0u8,
                    TokenStandard::FungibleAsset => 1u8,
                    TokenStandard::Fungible => 2u8,
                    TokenStandard::NonFungibleEdition => 3u8,
                },
            );
        },
        None => r.push(0),
    }
    assert(r@ =~= option_bytes(o is Some, seq![token_standard_code(o->0)]));
    r
}

fn collection_to_bytes(o: Option<Collection>) -> (r: Vec<u8>)
    ensures
        r@ == option_bytes(o is Some, collection_bytes(o->0)),
{
    let mut r: Vec<u8> = Vec::new();
    match o {
        Some(c) => {
            r.push(1);
            r.push(if c.verified { 1u8 } else { 0u8 });
            extend_bytes(&mut r, c.key.as_slice());
        },
        None => r.push(0),
    }
    assert(r@ =~= option_bytes(o is Some, collection_bytes(o->0)));
    r
}

fn uses_to_bytes(o: Option<Uses>) -> (r: Vec<u8>)
    ensures
        r@ == option_bytes(o is Some, uses_bytes(o->0)),
{
    let mut r: Vec<u8> = Vec::new();
    match o {
        Some(u) => {
            r.push(1);
            r.push(
                match u.use_method {
                    UseMethod::Burn => 0u8,
                    UseMethod::Multiple => 1u8,
                    UseMethod::Single => 2u8,
                },
            );
            extend_bytes(&mut r, u64_to_le_bytes(u.remaining).as_slice());
            extend_bytes(&mut r, u64_to_le_bytes(u.total).as_slice());
        },
        None => r.push(0),
    }
    assert(r@ =~= option_bytes(o is Some, uses_bytes(o->0)));
    r
}

/// Encodes a compressed NFT's metadata (see [`metadata_args_bytes`]).
pub fn metadata_args_to_bytes(m: &MetadataArgs) -> (r: Vec<u8>)
    requires
        metadata_encodable(*m),
    ensures
        r@ == metadata_args_bytes(*m),
{
    let mut r = string_to_bytes(&m.name);
    let b = string_to_bytes(&m.symbol);
    extend_bytes(&mut r, b.as_slice());
    let b = string_to_bytes(&m.uri);
    extend_bytes(&mut r, b.as_slice());
    extend_bytes(&mut r, u16_to_le_bytes(m.seller_fee_basis_points).as_slice());
    r.push(if m.primary_sale_happened { 1u8 } else { 0u8 });
    r.push(if m.is_mutable { 1u8 } else { 0u8 });
    let ghost p1 = r@;
    let b = option_u8_to_bytes(m.edition_nonce);
    extend_bytes(&mut r, b.as_slice());
    let b = token_standard_to_bytes(m.token_standard);
    extend_bytes(&mut r, b.as_slice());
    let b = collection_to_bytes(m.collection);
    extend_bytes(&mut r, b.as_slice());
    let b = uses_to_bytes(m.uses);
    extend_bytes(&mut r, b.as_slice());
    let ghost p2 = r@;
    r.push(
        match m.token_program_version {
            TokenProgramVersion::Original => 0u8,
            TokenProgramVersion::Token2022 => 1u8,
        },
    );
    push_creators(&mut r, &m.creators);
    proof {
        assert(p1 =~= string_bytes(m.name@) + string_bytes(m.symbol@) + string_bytes(m.uri@) + le16(
            m.seller_fee_basis_points,
        ) + seq![bool_byte(m.primary_sale_happened), bool_byte(m.is_mutable)]);
    }
    assert(r@ =~= metadata_args_bytes(*m));
    r
}

/// The accounts of Bubblegum's mint into a collection, in its order.
pub open spec fn mint_to_collection_metas(keys: Seq<Pubkey>) -> Seq<AccountMeta> {
    seq![
        writable(keys[0], false),
        readonly(keys[1], false),
        readonly(keys[2], false),
        writable(keys[3], false),
        readonly(keys[4], true),
        readonly(keys[5], true),
        readonly(keys[6], true),
        readonly(keys[7], false),
        readonly(keys[8], false),
        writable(keys[9], false),
        readonly(keys[10], false),
        readonly(keys[11], false),
        readonly(keys[12], false),
        readonly(keys[13], false),
        readonly(keys[14], false),
        readonly(keys[15], false),
    ]
}

/// The instruction that mints a compressed NFT with `metadata` into a
/// verified collection.  `accounts` are, in order: tree authority, leaf
/// owner, leaf delegate, merkle tree, payer, tree delegate, collection
/// authority, collection authority record, collection mint, collection
/// metadata, edition, Bubblegum signer, log wrapper, compression program,
/// Token Metadata program, system program; the payer, tree delegate and
/// collection authority sign; `remaining` accounts follow as signers.
pub fn mint_to_collection_cnft(
    bubblegum_program: &Pubkey,
    accounts: &Vec<Pubkey>,
    metadata: &MetadataArgs,
    remaining: &Vec<Pubkey>,
) -> (ix: Instruction)
    requires
        accounts@.len() == 16,
        metadata_encodable(*metadata),
    ensures
        ix.program_id == *bubblegum_program,
        ix.accounts@ == mint_to_collection_metas(accounts@) + extra_metas(remaining@, true),
        ix.accounts@.len() == 16 + remaining@.len(),
        forall|i: int|
            0 <= i < 16 ==> #[trigger] ix.accounts@[i].pubkey == accounts@[i] && (ix.accounts@[i].is_writable <==> (i == 0 || i == 3 || i == 9))
                && (ix.accounts@[i].is_signer <==> (i == 4 || i == 5 || i == 6)),
        forall|j: int|
            0 <= j < remaining@.len() ==> #[trigger] ix.accounts@[16 + j] == (AccountMeta {
                pubkey: remaining@[j],
                is_signer: true,
                is_writable: false,
            }),
        ix.data@ == MINT_TO_COLLECTION_DISCRIMINATOR@ + metadata_args_bytes(*metadata),
{
    let mut metas: Vec<AccountMeta> = Vec::new();
    metas.push(meta(&accounts[0], false, true));
    metas.push(meta(&accounts[1], false, false));
    metas.push(meta(&accounts[2], false, false));
    metas.push(meta(&accounts[3], false, true));
    metas.push(meta(&accounts[4], true, false));
    metas.push(meta(&accounts[5], true, false));
    metas.push(meta(&accounts[6], true, false));
    metas.push(meta(&accounts[7], false, false));
    metas.push(meta(&accounts[8], false, false));
    metas.push(meta(&accounts[9], false, true));
    metas.push(meta(&accounts[10], false, false));
    metas.push(meta(&accounts[11], false, false));
    metas.push(meta(&accounts[12], false, false));
    metas.push(meta(&accounts[13], false, false));
    metas.push(meta(&accounts[14], false, false));
    metas.push(meta(&accounts[15], false, false));
    assert(metas@ =~= mint_to_collection_metas(accounts@));
    push_extra(&mut metas, remaining, true);
    let mut data: Vec<u8> = Vec::new();
    extend_bytes(&mut data, MINT_TO_COLLECTION_DISCRIMINATOR.as_slice());
    let md = metadata_args_to_bytes(metadata);
    extend_bytes(&mut data, md.as_slice());
    Instruction { program_id: *bubblegum_program, accounts: metas, data }
}

/// The instruction that checks that `leaf_hash` is leaf `index` of the tree
/// whose root is `root_hash`; the proof's accounts follow read-only.
pub fn verify_leaf(
    compression_program: &Pubkey,
    merkle_tree: &Pubkey,
    leaf_hash: &[u8; 32],
    root_hash: &[u8; 32],
    index: u32,
    remaining: &Vec<Pubkey>,
) -> (ix: Instruction)
    ensures
        ix.program_id == *compression_program,
        ix.accounts@ == seq![readonly(*merkle_tree, false)] + extra_metas(remaining@, false),
        ix.data@ == VERIFY_LEAF_DISCRIMINATOR@ + root_hash@ + leaf_hash@ + le32(index),
{
    let mut metas: Vec<AccountMeta> = Vec::new();
    metas.push(meta(merkle_tree, false, false));
    push_extra(&mut metas, remaining, false);
    let mut data: Vec<u8> = Vec::new();
    extend_bytes(&mut data, VERIFY_LEAF_DISCRIMINATOR.as_slice());
    extend_bytes(&mut data, root_hash.as_slice());
    extend_bytes(&mut data, leaf_hash.as_slice());
    extend_bytes(&mut data, u32_to_le_bytes(index).as_slice());
    proof {
        assert(metas@ =~= seq![readonly(*merkle_tree, false)] + extra_metas(remaining@, false));
    }
    Instruction { program_id: *compression_program, accounts: metas, data }
}

/// The accounts of Bubblegum's plain mint, in its order.
pub open spec fn mint_metas(keys: Seq<Pubkey>) -> Seq<AccountMeta> {
    seq![
        writable(keys[0], false),
        readonly(keys[1], false),
        readonly(keys[2], false),
        writable(keys[3], false),
        readonly(keys[4], true),
        readonly(keys[5], true),
        readonly(keys[6], false),
        readonly(keys[7], false),
        readonly(keys[8], false),
    ]
}

/// The instruction that mints a compressed NFT with `metadata` outside any
/// collection.  `accounts` are, in order: tree authority, leaf owner, leaf
/// delegate, merkle tree, payer, tree delegate, log wrapper, compression
/// program, system program; the payer and tree delegate sign; `remaining`
/// accounts follow as signers.
pub fn mint_cnft(
    bubblegum_program: &Pubkey,
    accounts: &Vec<Pubkey>,
    metadata: &MetadataArgs,
    remaining: &Vec<Pubkey>,
) -> (ix: Instruction)
    requires
        accounts@.len() == 9,
        metadata_encodable(*metadata),
    ensures
        ix.program_id == *bubblegum_program,
        ix.accounts@ == mint_metas(accounts@) + extra_metas(remaining@, true),
        ix.accounts@.len() == 9 + remaining@.len(),
        forall|i: int|
            0 <= i < 9 ==> #[trigger] ix.accounts@[i].pubkey == accounts@[i] && (ix.accounts@[i].is_writable <==> (i == 0 || i == 3))
                && (ix.accounts@[i].is_signer <==> (i == 4 || i == 5)),
        forall|j: int|
            0 <= j < remaining@.len() ==> #[trigger] ix.accounts@[9 + j] == (AccountMeta {
                pubkey: remaining@[j],
                is_signer: true,
                is_writable: false,
            }),
        ix.data@ == MINT_DISCRIMINATOR@ + metadata_args_bytes(*metadata),
{
    let mut metas: Vec<AccountMeta> = Vec::new();
    metas.push(meta(&accounts[0], false, true));
    metas.push(meta(&accounts[1], false, false));
    metas.push(meta(&accounts[2], false, false));
    metas.push(meta(&accounts[3], false, true));
    metas.push(meta(&accounts[4], true, false));
    metas.push(meta(&accounts[5], true, false));
    metas.push(meta(&accounts[6], false, false));
    metas.push(meta(&accounts[7], false, false));
    metas.push(meta(&accounts[8], false, false));
    assert(metas@ =~= mint_metas(accounts@));
    push_extra(&mut metas, remaining, true);
    let mut data: Vec<u8> = Vec::new();
    extend_bytes(&mut data, MINT_DISCRIMINATOR.as_slice());
    let md = metadata_args_to_bytes(metadata);
    extend_bytes(&mut data, md.as_slice());
    Instruction { program_id: *bubblegum_program, accounts: metas, data }
}

/// The accounts of Bubblegum's burn, in its order.
pub open spec fn burn_metas(keys: Seq<Pubkey>) -> Seq<AccountMeta> {
    seq![
        readonly(keys[0], false),
        readonly(keys[1], false),
        readonly(keys[2], true),
        writable(keys[3], false),
        readonly(keys[4], false),
        readonly(keys[5], false),
        readonly(keys[6], false),
    ]
}

/// The instruction that burns leaf `index` (nonce `nonce`) of a tree.
/// `accounts` are, in order: tree authority, leaf owner, leaf delegate
/// (signing), merkle tree, log wrapper, compression program, system
/// program; the proof's accounts follow read-only.  The data names the
/// tree's root, the leaf's data hash and creator hash, the nonce and the
/// index.
pub fn burn_cnft(
    bubblegum_program: &Pubkey,
    accounts: &Vec<Pubkey>,
    root: &[u8; 32],
    data_hash: &[u8; 32],
    creator_hash: &[u8; 32],
    nonce: u64,
    index: u32,
    remaining: &Vec<Pubkey>,
) -> (ix: Instruction)
    requires
        accounts@.len() == 7,
    ensures
        ix.program_id == *bubblegum_program,
        ix.accounts@ == burn_metas(accounts@) + extra_metas(remaining@, false),
        ix.accounts@.len() == 7 + remaining@.len(),
        forall|i: int|
            0 <= i < 7 ==> #[trigger] ix.accounts@[i].pubkey == accounts@[i] && (ix.accounts@[i].is_writable <==> (i == 3))
                && (ix.accounts@[i].is_signer <==> (i == 2)),
        forall|j: int|
            0 <= j < remaining@.len() ==> #[trigger] ix.accounts@[7 + j] == (AccountMeta {
                pubkey: remaining@[j],
                is_signer: false,
                is_writable: false,
            }),
        ix.data@ == BURN_DISCRIMINATOR@ + root@ + data_hash@ + creator_hash@ + le64(nonce) + le32(index),
{
    let mut metas: Vec<AccountMeta> = Vec::new();
    metas.push(meta(&accounts[0], false, false));
    metas.push(meta(&accounts[1], false, false));
    metas.push(meta(&accounts[2], true, false));
    metas.push(meta(&accounts[3], false, true));
    metas.push(meta(&accounts[4], false, false));
    metas.push(meta(&accounts[5], false, false));
    metas.push(meta(&accounts[6], false, false));
    assert(metas@ =~= burn_metas(accounts@));
    push_extra(&mut metas, remaining, false);
    let mut data: Vec<u8> = Vec::new();
    extend_bytes(&mut data, BURN_DISCRIMINATOR.as_slice());
    extend_bytes(&mut data, root.as_slice());
    extend_bytes(&mut data, data_hash.as_slice());
    extend_bytes(&mut data, creator_hash.as_slice());
    extend_bytes(&mut data, u64_to_le_bytes(nonce).as_slice());
    extend_bytes(&mut data, u32_to_le_bytes(index).as_slice());
    Instruction { program_id: *bubblegum_program, accounts: metas, data }
}

/// The accounts of Token Metadata's `create_metadata_account_v3`, in its order.
pub open spec fn create_metadata_metas(keys: Seq<Pubkey>) -> Seq<AccountMeta> {
    seq![
        writable(keys[0], false),
        readonly(keys[1], false),
        readonly(keys[2], true),
        writable(keys[3], true),
        readonly(keys[4], true),
        readonly(keys[5], false),
        readonly(keys[6], false),
    ]
}

/// The data of `create_metadata_account_v3`: the tag, name, symbol and URI,
/// the royalty; for a collection, the payer as sole creator (unverified,
/// whole share), else no creators; no collection, no uses, mutable; and
/// for a collection, sized collection details (size zero), else none.
pub open spec fn create_metadata_data(
    payer: Pubkey,
    name: Seq<char>,
    symbol: Seq<char>,
    uri: Seq<char>,
    share: u16,
    collection: bool,
) -> Seq<u8> {
    seq![CREATE_METADATA_V3_TAG] + string_bytes(name) + string_bytes(symbol) + string_bytes(uri) + le16(
        share,
    ) + (if collection {
        seq![1u8, 1, 0, 0, 0] + payer@ + seq![0u8, 100]
    } else {
        seq![0u8]
    }) + seq![0u8, 0, 1] + (if collection {
        seq![1u8, 0, 0, 0, 0, 0, 0, 0, 0, 0]
    } else {
        seq![0u8]
    })
}

/// The instruction that creates a mint's metadata account.  `accounts` are,
/// in order: metadata, mint, mint authority (signing), payer (signing),
/// update authority (signing), system program, rent sysvar.
pub fn create_metadata_v3(
    accounts: &Vec<Pubkey>,
    name: &String,
    symbol: &String,
    uri: &String,
    share: u16,
    collection: Option<bool>,
    remaining: &Vec<Pubkey>,
) -> (ix: Instruction)
    requires
        accounts@.len() == 7,
        encode_utf8(name@).len() <= u32::MAX,
        encode_utf8(symbol@).len() <= u32::MAX,
        encode_utf8(uri@).len() <= u32::MAX,
    ensures
        ix.program_id == MPL_METADATA_ID,
        ix.accounts@ == create_metadata_metas(accounts@) + extra_metas(remaining@, false),
        ix.data@ == create_metadata_data(accounts@[3], name@, symbol@, uri@, share, collection is Some),
{
    let mut metas: Vec<AccountMeta> = Vec::new();
    metas.push(meta(&accounts[0], false, true));
    metas.push(meta(&accounts[1], false, false));
    metas.push(meta(&accounts[2], true, false));
    metas.push(meta(&accounts[3], true, true));
    metas.push(meta(&accounts[4], true, false));
    metas.push(meta(&accounts[5], false, false));
    metas.push(meta(&accounts[6], false, false));
    assert(metas@ =~= create_metadata_metas(accounts@));
    push_extra(&mut metas, remaining, false);
    let mut data: Vec<u8> = Vec::new();
    data.push(CREATE_METADATA_V3_TAG);
    let b = string_to_bytes(name);
    extend_bytes(&mut data, b.as_slice());
    let b = string_to_bytes(symbol);
    extend_bytes(&mut data, b.as_slice());
    let b = string_to_bytes(uri);
    extend_bytes(&mut data, b.as_slice());
    extend_bytes(&mut data, u16_to_le_bytes(share).as_slice());
    if collection.is_some() {
        data.push(1);
        data.push(1);
        data.push(0);
        data.push(0);
        data.push(0);
        extend_bytes(&mut data, accounts[3].as_slice());
        data.push(0);
        data.push(100);
    } else {
        data.push(0);
    }
    data.push(0);
    data.push(0);
    data.push(1);
    if collection.is_some() {
        data.push(1);
        data.push(0);
        data.push(0);
        data.push(0);
        data.push(0);
        data.push(0);
        data.push(0);
        data.push(0);
        data.push(0);
        data.push(0);
    } else {
        data.push(0);
    }
    assert(data@ =~= create_metadata_data(accounts@[3], name@, symbol@, uri@, share, collection is Some));
    Instruction { program_id: MPL_METADATA_ID, accounts: metas, data }
}

/// The accounts of Token Metadata's `create_master_edition_v3`, in its order.
pub open spec fn master_edition_metas(keys: Seq<Pubkey>) -> Seq<AccountMeta> {
    seq![
        writable(keys[0], false),
        writable(keys[1], false),
        readonly(keys[2], true),
        readonly(keys[3], true),
        writable(keys[4], true),
        writable(keys[5], false),
        readonly(keys[6], false),
        readonly(keys[7], false),
        readonly(keys[8], false),
    ]
}

/// The instruction that creates a mint's master edition with a maximum
/// supply of `supply`.  `accounts` are, in order: edition, mint, update
/// authority (signing), mint authority (signing), payer (signing),
/// metadata, token program, system program, rent sysvar.
pub fn create_master_edition_v3(accounts: &Vec<Pubkey>, supply: u64, remaining: &Vec<Pubkey>) -> (ix: Instruction)
    requires
        accounts@.len() == 9,
    ensures
        ix.program_id == MPL_METADATA_ID,
        ix.accounts@ == master_edition_metas(accounts@) + extra_metas(remaining@, false),
        ix.data@ == seq![CREATE_MASTER_EDITION_V3_TAG, 1u8] + le64(supply),
{
    let mut metas: Vec<AccountMeta> = Vec::new();
    metas.push(meta(&accounts[0], false, true));
    metas.push(meta(&accounts[1], false, true));
    metas.push(meta(&accounts[2], true, false));
    metas.push(meta(&accounts[3], true, false));
    metas.push(meta(&accounts[4], true, true));
    metas.push(meta(&accounts[5], false, true));
    metas.push(meta(&accounts[6], false, false));
    metas.push(meta(&accounts[7], false, false));
    metas.push(meta(&accounts[8], false, false));
    assert(metas@ =~= master_edition_metas(accounts@));
    push_extra(&mut metas, remaining, false);
    let mut data: Vec<u8> = Vec::new();
    data.push(CREATE_MASTER_EDITION_V3_TAG);
    data.push(1);
    extend_bytes(&mut data, u64_to_le_bytes(supply).as_slice());
    Instruction { program_id: MPL_METADATA_ID, accounts: metas, data }
}

/// A mint into the collection names its accounts in order and marks writable exactly the ones
/// Bubblegum changes (tree authority, merkle tree, collection metadata) and as signers exactly
/// the payer, the tree delegate and the collection authority.
pub proof fn lemma_mint_to_collection_roles(keys: Seq<Pubkey>)
    requires
        keys.len() == 16,
    ensures
        mint_to_collection_metas(keys).len() == 16,
        forall|i: int|
            0 <= i < 16 ==> #[trigger] mint_to_collection_metas(keys)[i].pubkey == keys[i] && (mint_to_collection_metas(keys)[i].is_writable <==> (i == 0 || i == 3 || i == 9))
                && (mint_to_collection_metas(keys)[i].is_signer <==> (i == 4 || i == 5 || i == 6)),
{
}

/// A plain mint names its accounts in order and marks writable exactly the tree authority and
/// the merkle tree, and as signers exactly the payer and the tree delegate.
pub proof fn lemma_mint_roles(keys: Seq<Pubkey>)
    requires
        keys.len() == 9,
    ensures
        mint_metas(keys).len() == 9,
        forall|i: int|
            0 <= i < 9 ==> #[trigger] mint_metas(keys)[i].pubkey == keys[i] && (mint_metas(keys)[i].is_writable <==> (i == 0 || i == 3))
                && (mint_metas(keys)[i].is_signer <==> (i == 4 || i == 5)),
{
}

/// A burn names its accounts in order and marks writable exactly the merkle tree, and as signer
/// exactly the leaf delegate.
pub proof fn lemma_burn_roles(keys: Seq<Pubkey>)
    requires
        keys.len() == 7,
    ensures
        burn_metas(keys).len() == 7,
        forall|i: int|
            0 <= i < 7 ==> #[trigger] burn_metas(keys)[i].pubkey == keys[i] && (burn_metas(keys)[i].is_writable <==> (i == 3))
                && (burn_metas(keys)[i].is_signer <==> (i == 2)),
{
}

/// Creating a mint's metadata names its accounts in order and marks writable exactly the
/// metadata account and the payer, and as signers exactly the mint authority, the payer and
/// the update authority.
pub proof fn lemma_create_metadata_roles(keys: Seq<Pubkey>)
    requires
        keys.len() == 7,
    ensures
        create_metadata_metas(keys).len() == 7,
        forall|i: int|
            0 <= i < 7 ==> #[trigger] create_metadata_metas(keys)[i].pubkey == keys[i] && (create_metadata_metas(keys)[i].is_writable <==> (i == 0 || i == 3))
                && (create_metadata_metas(keys)[i].is_signer <==> (i == 2 || i == 3 || i == 4)),
{
}

/// Creating a master edition names its accounts in order and marks writable exactly the
/// edition, the mint, the payer and the metadata account, and as signers exactly the update
/// authority, the mint authority and the payer.
pub proof fn lemma_master_edition_roles(keys: Seq<Pubkey>)
    requires
        keys.len() == 9,
    ensures
        master_edition_metas(keys).len() == 9,
        forall|i: int|
            0 <= i < 9 ==> #[trigger] master_edition_metas(keys)[i].pubkey == keys[i] && (master_edition_metas(keys)[i].is_writable <==> (i == 0 || i == 1 || i == 4 || i == 5))
                && (master_edition_metas(keys)[i].is_signer <==> (i == 2 || i == 3 || i == 4)),
{
}

} // verus!

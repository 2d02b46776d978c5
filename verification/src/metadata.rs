//! The metadata the program gives the compressed NFTs it mints: creator
//! lists, URIs with their encoded payloads, and the metadata record itself.
use crate::ascii::{
    bytes_to_string, encode_bytes_to_ascii_string, encode_u64_to_ascii_string, spec_encode_bytes,
    spec_encode_u64, until_first_zero,
};
use crate::bytes::le32;
use crate::codec::{bool_byte, extend_bytes};
use crate::external::{keccak256, keccak_hashv};
use crate::external::spec_utf8_lossy;
use crate::types::{
    AssetBundler, Collection, CreateCnft, Creator, MetadataArgs, Pubkey, TokenProgramVersion,
    TokenStandard,
};
use vstd::bytes::u32_to_le_bytes;
use vstd::prelude::*;

verus! {

/// A creator entry that has not signed, with its share in percent.
pub open spec fn unverified(address: Pubkey, share: u8) -> Creator {
    Creator { address, verified: false, share }
}

/// A creator entry that has not signed.
pub fn creator_entry(address: &Pubkey, share: u8) -> (c: Creator)
    ensures
        c == unverified(*address, share),
{
    Creator { address: *address, verified: false, share }
}

/// The creator list of an NFT minted for `owner`: `owner` with the whole
/// share, then each of `others` with none, in order.
pub open spec fn creator_list(owner: Pubkey, others: Seq<Pubkey>) -> Seq<Creator> {
    seq![unverified(owner, 100)] + others.map_values(|k: Pubkey| unverified(k, 0))
}

/// Builds the creator list of an NFT minted for `owner` (see [`creator_list`]).
pub fn creators_for(owner: &Pubkey, others: &Vec<Pubkey>) -> (r: Vec<Creator>)
    ensures
        r@ == creator_list(*owner, others@),
{
    let mut r: Vec<Creator> = Vec::new();
    r.push(creator_entry(owner, 100));
    let mut i: usize = 0;
    while i < others.len()
        invariant
            i <= others@.len(),
            r@ =~= creator_list(*owner, others@.take(i as int)),
        decreases others@.len() - i,
    {
        r.push(creator_entry(&others[i], 0));
        i = i + 1;
        assert(r@ =~= creator_list(*owner, others@.take(i as int)));
    }
    assert(others@.take(others@.len() as int) =~= others@);
    r
}

/// The metadata of an NFT minted into the program's collection: no royalty,
/// mutable, a non-fungible standard, token program version `Original`, and the
/// collection `collection_mint`, verified.
pub open spec fn collection_nft_fields(
    m: MetadataArgs,
    name: Seq<char>,
    symbol: Seq<char>,
    uri: Seq<char>,
    creators: Seq<Creator>,
    collection_mint: Pubkey,
) -> bool {
    &&& m.name@ == name
    &&& m.symbol@ == symbol
    &&& m.uri@ == uri
    &&& m.seller_fee_basis_points == 0
    &&& m.creators@ == creators
    &&& !m.primary_sale_happened
    &&& m.is_mutable
    &&& m.edition_nonce is None
    &&& m.collection == Some(Collection { verified: true, key: collection_mint })
    &&& m.uses is None
    &&& m.token_standard == Some(TokenStandard::NonFungible)
    &&& m.token_program_version == TokenProgramVersion::Original
}

/// The metadata of an NFT minted into the program's collection (see
/// [`collection_nft_fields`]).
pub fn collection_nft(
    name: String,
    symbol: String,
    uri: String,
    creators: Vec<Creator>,
    collection_mint: &Pubkey,
) -> (m: MetadataArgs)
    ensures
        collection_nft_fields(m, name@, symbol@, uri@, creators@, *collection_mint),
{
    MetadataArgs {
        name,
        symbol,
        uri,
        seller_fee_basis_points: 0,
        creators,
        primary_sale_happened: false,
        is_mutable: true,
        edition_nonce: None,
        collection: Some(Collection { verified: true, key: *collection_mint }),
        uses: None,
        token_standard: Some(TokenStandard::NonFungible),
        token_program_version: TokenProgramVersion::Original,
    }
}

/// The metadata a caller's description of a new compressed NFT stands for:
/// its name, symbol, URI, royalty, creators and collection, not yet sold,
/// mutable, non-fungible, on token program version `Original`.
pub fn create_nft_to_metadata(create_nft: CreateCnft) -> (m: MetadataArgs)
    ensures
        m.name@ == create_nft.name@,
        m.symbol@ == create_nft.symbol@,
        m.uri@ == create_nft.uri@,
        m.seller_fee_basis_points == create_nft.fee,
        m.creators@ == create_nft.creators@,
        !m.primary_sale_happened,
        m.is_mutable,
        m.edition_nonce is None,
        m.collection == create_nft.collection,
        m.uses is None,
        m.token_standard == Some(TokenStandard::NonFungible),
        m.token_program_version == TokenProgramVersion::Original,
{
    MetadataArgs {
        name: create_nft.name,
        symbol: create_nft.symbol,
        uri: create_nft.uri,
        seller_fee_basis_points: create_nft.fee,
        creators: create_nft.creators,
        primary_sale_happened: false,
        is_mutable: true,
        edition_nonce: None,
        collection: create_nft.collection,
        uses: None,
        token_standard: Some(TokenStandard::NonFungible),
        token_program_version: TokenProgramVersion::Original,
    }
}

/// The payload stamped into a URI at time `clock32`: a zero version byte,
/// then the time, little-endian.
pub open spec fn stamp_payload(clock32: u32) -> Seq<u8> {
    seq![0u8] + le32(clock32)
}

/// Builds [`stamp_payload`].
pub fn stamp_payload_bytes(clock32: u32) -> (r: Vec<u8>)
    ensures
        r@ == stamp_payload(clock32),
{
    let mut r: Vec<u8> = Vec::new();
    r.push(0);
    extend_bytes(&mut r, u32_to_le_bytes(clock32).as_slice());
    r
}

/// A URI with its payload: `base`, then `?p=` and the payload in the
/// URL-safe encoding.
pub open spec fn with_payload(base: Seq<char>, payload: Seq<u8>) -> Seq<char> {
    base + "?p="@ + spec_encode_bytes(payload, true)
}

/// Appends `?p=` and the URL-safe encoding of `payload` to `uri`.
pub fn append_payload(uri: &mut String, payload: &[u8])
    ensures
        final(uri)@ == with_payload(old(uri)@, payload@),
{
    uri.append("?p=");
    let enc = encode_bytes_to_ascii_string(payload, true);
    uri.append(enc.as_str());
}

/// Where a bid's NFT image lives, by bundler: the Irys gateway for Irys,
/// Arweave otherwise.
pub open spec fn bid_image_uri(bundler: AssetBundler) -> Seq<char> {
    if bundler == AssetBundler::IrysGateway {
        "https://gateway.irys.xyz/6dGCqBJqOw-cEaFupbtLgZ-Mge1yWHKIW4NhzGS5F70"@
    } else {
        "https://arweave.net/6dGCqBJqOw-cEaFupbtLgZ-Mge1yWHKIW4NhzGS5F70"@
    }
}

/// The URI of a bid's NFT minted at `clock32`.
pub open spec fn bid_uri(bundler: AssetBundler, clock32: u32) -> Seq<char> {
    with_payload(bid_image_uri(bundler), stamp_payload(clock32))
}

/// Builds [`bid_uri`].
pub fn bid_nft_uri(bundler: &AssetBundler, clock32: u32) -> (r: String)
    ensures
        r@ == bid_uri(*bundler, clock32),
{
    let mut uri = match bundler {
        AssetBundler::IrysGateway => "https://gateway.irys.xyz/6dGCqBJqOw-cEaFupbtLgZ-Mge1yWHKIW4NhzGS5F70".to_owned(),
        _ => "https://arweave.net/6dGCqBJqOw-cEaFupbtLgZ-Mge1yWHKIW4NhzGS5F70".to_owned(),
    };
    let payload = stamp_payload_bytes(clock32);
    append_payload(&mut uri, payload.as_slice());
    uri
}

/// The host prefix of a spot's or a campaign's asset path, by bundler.
pub open spec fn asset_prefix(bundler: AssetBundler) -> Seq<char> {
    match bundler {
        AssetBundler::IrysGateway => "https://gateway.irys.xyz/"@,
        AssetBundler::Raw => "https://"@,
        _ => "https://arweave.net/"@,
    }
}

/// The URI of an asset at `path` with `payload`.
pub open spec fn asset_uri(bundler: AssetBundler, path: Seq<char>, payload: Seq<u8>) -> Seq<char> {
    with_payload(asset_prefix(bundler) + path, payload)
}

/// Builds [`asset_uri`].
pub fn asset_nft_uri(bundler: &AssetBundler, path: &String, payload: &[u8]) -> (r: String)
    ensures
        r@ == asset_uri(*bundler, path@, payload@),
{
    let mut uri = match bundler {
        AssetBundler::IrysGateway => "https://gateway.irys.xyz/".to_owned(),
        AssetBundler::Raw => "https://".to_owned(),
        _ => "https://arweave.net/".to_owned(),
    };
    uri.append(path.as_str());
    append_payload(&mut uri, payload);
    uri
}

/// The host prefix of an ad's asset, by bundler: Arweave (with no trailing
/// slash) unless the bundler is raw.
pub open spec fn ad_prefix(bundler: AssetBundler) -> Seq<char> {
    if bundler == AssetBundler::Raw {
        "https://"@
    } else {
        "https://arweave.net"@
    }
}

/// The URI of an ad whose zero-terminated path is `arweave`, minted at
/// `clock32`: the payload is the time alone.
pub open spec fn ad_uri(bundler: AssetBundler, arweave: Seq<u8>, clock32: u32) -> Seq<char> {
    with_payload(
        ad_prefix(bundler) + spec_utf8_lossy(until_first_zero(arweave)),
        le32(clock32),
    )
}

/// Builds [`ad_uri`].
pub fn ad_nft_uri(bundler: &AssetBundler, arweave: &[u8], clock32: u32) -> (r: String)
    ensures
        r@ == ad_uri(*bundler, arweave@, clock32),
{
    let mut uri = match bundler {
        AssetBundler::Raw => "https://".to_owned(),
        _ => "https://arweave.net".to_owned(),
    };
    let path = bytes_to_string(arweave);
    uri.append(path.as_str());
    let payload = u32_to_le_bytes(clock32);
    append_payload(&mut uri, payload.as_slice());
    uri
}

/// The URI of a collection's metadata: Irys for Irys, Arweave otherwise,
/// then the path; no payload.
pub open spec fn collection_uri(bundler: AssetBundler, path: Seq<char>) -> Seq<char> {
    (if bundler == AssetBundler::IrysGateway {
        "https://gateway.irys.xyz/"@
    } else {
        "https://arweave.net/"@
    }) + path
}

/// Builds [`collection_uri`].
pub fn collection_metadata_uri(bundler: &AssetBundler, path: &String) -> (r: String)
    ensures
        r@ == collection_uri(*bundler, path@),
{
    let mut uri = match bundler {
        AssetBundler::IrysGateway => "https://gateway.irys.xyz/".to_owned(),
        _ => "https://arweave.net/".to_owned(),
    };
    uri.append(path.as_str());
    uri
}

/// The symbol of the `n`-th NFT of a kind: `n` in the 94-character alphabet.
pub open spec fn nth_symbol(n: u64) -> Seq<char> {
    spec_encode_u64(n as nat, false)
}

/// Builds [`nth_symbol`].
pub fn nth_symbol_string(n: u64) -> (r: String)
    ensures
        r@ == nth_symbol(n),
{
    encode_u64_to_ascii_string(n)
}

/// How a creator enters the hash of a leaf's creators: its address, then
/// whether it signed, then its share.
pub open spec fn creator_leaf_bytes(c: Creator) -> Seq<u8> {
    c.address@ + seq![bool_byte(c.verified), c.share]
}

/// The creators' bytes one after the other.
pub open spec fn creators_preimage(creators: Seq<Creator>) -> Seq<u8> {
    creators.map_values(|c: Creator| creator_leaf_bytes(c)).flatten()
}

/// The hash of a compressed NFT's creators, as its leaf records it: the
/// Keccak-256 digest of their bytes.
pub fn creator_hash(creators: &Vec<Creator>) -> (h: [u8; 32])
    ensures
        h@ == keccak256(creators_preimage(creators@)),
{
    let mut parts: Vec<Vec<u8>> = Vec::new();
    let mut i: usize = 0;
    while i < creators.len()
        invariant
            i <= creators@.len(),
            parts@.len() == i,
            forall|j: int| 0 <= j < i ==> #[trigger] parts@[j]@ == creator_leaf_bytes(creators@[j]),
        decreases creators@.len() - i,
    {
        let c = &creators[i];
        let mut part: Vec<u8> = Vec::new();
        extend_bytes(&mut part, c.address.as_slice());
        part.push(if c.verified { 1u8 } else { 0u8 });
        part.push(c.share);
        assert(part@ =~= creator_leaf_bytes(creators@[i as int]));
        parts.push(part);
        i = i + 1;
    }
    assert(parts@.map_values(|p: Vec<u8>| p@) =~= creators@.map_values(|c: Creator| creator_leaf_bytes(c)));
    keccak_hashv(&parts)
}

} // verus!

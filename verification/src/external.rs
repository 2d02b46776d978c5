//! Calls into std and into the crates that the program leans on, each with the
//! contract that the callee's source or documentation gives it.
use vstd::prelude::*;
use vstd::utf8::{decode_utf8, valid_utf8};

verus! {

/// `String::push` (std): appends one character.  The contract states what
/// std documents: the string afterwards is the old string followed by `c`.
#[verifier::external_body]
pub(crate) fn string_push(s: &mut String, c: char)
    ensures
        final(s)@ == old(s)@.push(c),
{
    s.push(c);
}

/// The text that `String::from_utf8_lossy` (std) makes of `bytes`.
pub uninterp spec fn spec_utf8_lossy(bytes: Seq<u8>) -> Seq<char>;

/// `String::from_utf8_lossy` (std), made an owned `String`: the result is the
/// name above applied to the bytes, and, as std documents, a byte string that
/// is valid UTF-8 comes back as exactly the text it encodes.
#[verifier::external_body]
pub(crate) fn utf8_lossy(bytes: &[u8]) -> (r: String)
    ensures
        r@ == spec_utf8_lossy(bytes@),
        valid_utf8(bytes@) ==> r@ == decode_utf8(bytes@),
{
    String::from_utf8_lossy(bytes).to_string()
}

/// Whether `brine_ed25519::verify` accepts `sig` as an ed25519 signature of
/// `msg` by `pubkey`.
pub uninterp spec fn ed25519_verifies(pubkey: Seq<u8>, sig: Seq<u8>, msg: Seq<u8>) -> bool;

/// `brine_ed25519::verify` on a single message: whether it returns `Ok`.  The
/// check depends on the three byte strings alone, so its answer is the name
/// above applied to them; nothing more is claimed of it.
#[verifier::external_body]
pub(crate) fn ed25519_verify(pubkey: &[u8; 32], sig: &[u8; 64], msg: &[u8]) -> (ok: bool)
    ensures
        ok == ed25519_verifies(pubkey@, sig@, msg@),
{
    brine_ed25519::verify(&brine_ed25519::Address::new_from_array(*pubkey), sig, &[msg]).is_ok()
}

/// The Keccak-256 digest of `data`.
pub uninterp spec fn keccak256(data: Seq<u8>) -> Seq<u8>;

/// `solana_program::keccak::hashv`: the source feeds every part, in order,
/// into one Keccak-256 hasher, so the digest is the name above applied to the
/// parts laid end to end.
#[verifier::external_body]
pub(crate) fn keccak_hashv(parts: &Vec<Vec<u8>>) -> (h: [u8; 32])
    ensures
        h@ == keccak256(parts@.map_values(|p: Vec<u8>| p@).flatten()),
{
    let slices: Vec<&[u8]> = parts.iter().map(|p| p.as_slice()).collect();
    solana_program::keccak::hashv(&slices).to_bytes()
}

/// The program-derived address of `seeds` under `program_id` and its bump,
/// if one exists.
pub uninterp spec fn program_address(seeds: Seq<Seq<u8>>, program_id: Seq<u8>) -> Option<(Seq<u8>, u8)>;

/// `Pubkey::try_find_program_address`: the result depends on the seeds and the
/// program id alone, so it is the name above applied to them.  It returns
/// `None` when a seed is too long, when there are too many seeds, or when no
/// bump gives an address off the curve.
#[verifier::external_body]
pub(crate) fn try_find_program_address(seeds: &Vec<Vec<u8>>, program_id: &[u8; 32]) -> (r: Option<([u8; 32], u8)>)
    ensures
        match r {
            Some(p) => program_address(seeds@.map_values(|s: Vec<u8>| s@), program_id@) == Some((p.0@, p.1)),
            None => program_address(seeds@.map_values(|s: Vec<u8>| s@), program_id@) is None,
        },
{
    let slices: Vec<&[u8]> = seeds.iter().map(|s| s.as_slice()).collect();
    match solana_program::pubkey::Pubkey::try_find_program_address(
        &slices,
        &solana_program::pubkey::Pubkey::new_from_array(*program_id),
    ) {
        Some((k, b)) => Some((k.to_bytes(), b)),
        None => None,
    }
}

} // verus!

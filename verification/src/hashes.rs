//! The two non-cryptographic hashes of the program: cyrb53 (store and
//! universe fingerprints) and seeded FNV-1a (bloom-filter bit positions).
use vstd::prelude::*;

verus! {

pub const CYRB_A: u32 = 2654435761;

pub const CYRB_B: u32 = 1597334677;

pub const CYRB_C: u32 = 2246822507;

pub const CYRB_D: u32 = 3266489909;

pub const CYRB_E: u64 = 4294967296;

pub const CYRB_F: u64 = 2097151;

pub const FNV_OFFSET: u64 = 0xcbf29ce484222325;

pub const FNV_PRIME: u64 = 0x100000001b3;

/// The two 32-bit lanes of cyrb53 after absorbing every byte of `key`.
pub open spec fn cyrb53_lanes(key: Seq<u8>, seed: u32) -> (u32, u32)
    decreases key.len(),
{
    if key.len() == 0 {
        (0xdeadbeefu32 ^ seed, 0x41c6ce57u32 ^ seed)
    } else {
        let (h1, h2) = cyrb53_lanes(key.drop_last(), seed);
        let c = key.last() as u32;
        ((h1 ^ c).wrapping_mul(CYRB_A), (h2 ^ c).wrapping_mul(CYRB_B))
    }
}

/// The cyrb53 hash of `key` with `seed`: the final avalanche of both lanes,
/// combined into a 53-bit number.
pub open spec fn spec_cyrb53(key: Seq<u8>, seed: u32) -> u64 {
    let (a1, a2) = cyrb53_lanes(key, seed);
    let h1 = (a1 ^ (a1 >> 16u32)).wrapping_mul(CYRB_C) ^ (a2 ^ (a2 >> 13u32)).wrapping_mul(CYRB_D);
    let h2 = (a2 ^ (a2 >> 16u32)).wrapping_mul(CYRB_C) ^ (h1 ^ (h1 >> 13u32)).wrapping_mul(CYRB_D);
    (CYRB_E * (CYRB_F & (h2 as u64)) + (h1 as u64)) as u64
}

proof fn lemma_mask_bound(x: u64)
    ensures
        CYRB_F & x <= CYRB_F,
{
    assert(2097151u64 & x <= 2097151u64) by (bit_vector);
}

/// cyrb53 of `key` with `seed`; the result is below 2^53.
pub fn cyrb53_bytes(key: &[u8], seed: u32) -> (r: u64)
    ensures
        r == spec_cyrb53(key@, seed),
        r < 0x20_0000_0000_0000u64,
{
    let mut h1: u32 = 0xdeadbeef ^ seed;
    let mut h2: u32 = 0x41c6ce57 ^ seed;
    let mut i: usize = 0;
    while i < key.len()
        invariant
            i <= key@.len(),
            (h1, h2) == cyrb53_lanes(key@.take(i as int), seed),
        decreases key@.len() - i,
    {
        let byte_code = key[i] as u32;
        assert(key@.take(i + 1).drop_last() =~= key@.take(i as int));
        h1 = (h1 ^ byte_code).wrapping_mul(CYRB_A);
        h2 = (h2 ^ byte_code).wrapping_mul(CYRB_B);
        i = i + 1;
    }
    assert(key@.take(key@.len() as int) =~= key@);
    h1 = (h1 ^ (h1 >> 16)).wrapping_mul(CYRB_C) ^ (h2 ^ (h2 >> 13)).wrapping_mul(CYRB_D);
    h2 = (h2 ^ (h2 >> 16)).wrapping_mul(CYRB_C) ^ (h1 ^ (h1 >> 13)).wrapping_mul(CYRB_D);
    let masked = CYRB_F & (h2 as u64);
    proof {
        lemma_mask_bound(h2 as u64);
    }
    CYRB_E * masked + (h1 as u64)
}

/// Seeded FNV-1a state after absorbing every byte of `data`.
pub open spec fn fnv1a(data: Seq<u8>, seed: u64) -> u64
    decreases data.len(),
{
    if data.len() == 0 {
        FNV_OFFSET ^ seed
    } else {
        (fnv1a(data.drop_last(), seed) ^ (data.last() as u64)).wrapping_mul(FNV_PRIME)
    }
}

/// The bloom-filter hash: seeded FNV-1a of `data`, as a `usize`.
pub open spec fn spec_hash(data: Seq<u8>, seed: u64) -> usize {
    fnv1a(data, seed) as usize
}

/// Seeded FNV-1a of `data`.
pub fn hash(data: &[u8], seed: u64) -> (r: usize)
    ensures
        r == spec_hash(data@, seed),
{
    let mut h: u64 = FNV_OFFSET ^ seed;
    let mut i: usize = 0;
    while i < data.len()
        invariant
            i <= data@.len(),
            h == fnv1a(data@.take(i as int), seed),
        decreases data@.len() - i,
    {
        assert(data@.take(i + 1).drop_last() =~= data@.take(i as int));
        h = h ^ (data[i] as u64);
        h = h.wrapping_mul(FNV_PRIME);
        i = i + 1;
    }
    assert(data@.take(data@.len() as int) =~= data@);
    #[verifier::truncate]
    (h as usize)
}

/// The fingerprint the program gives an account (a store, a universe):
/// cyrb53 of its address with seed 0.
pub open spec fn fingerprint(key: [u8; 32]) -> u64 {
    spec_cyrb53(key@, 0)
}

/// The fingerprint of an account's address (see [`fingerprint`]).
pub fn key_fingerprint(key: &[u8; 32]) -> (h: u64)
    ensures
        h == fingerprint(*key),
{
    cyrb53_bytes(key.as_slice(), 0)
}

} // verus!

//! The bloom filters that tell a new viewer (or clicker) from one already
//! counted, stored bit by bit in a bid-track account.
use crate::hashes::{hash, spec_hash};
use crate::layout::BLOOM_HASH_COUNT;
use vstd::prelude::*;

verus! {

/// Bit `i` (of `bits`) that hash function number `k` selects for `id`.
pub open spec fn bloom_index(id: Seq<u8>, k: int, bits: usize) -> usize {
    (spec_hash(id, k as u64) % bits) as usize
}

/// Whether bit `bit` (below 8) of `byte` is set.
pub open spec fn bit_of(byte: u8, bit: usize) -> bool {
    (byte & (1u8 << (bit as u8))) != 0
}

/// Whether bit `idx` of the filter that starts at byte `start` is set.
pub open spec fn bloom_has_bit(data: Seq<u8>, start: int, idx: usize) -> bool {
    bit_of(data[start + idx / 8], (idx % 8) as usize)
}

/// Whether every bit that `id` selects is set: the filter reports `id` as
/// seen.
pub open spec fn bloom_contains(data: Seq<u8>, start: int, id: Seq<u8>, bits: usize) -> bool {
    forall|k: int| 0 <= k < BLOOM_HASH_COUNT ==> #[trigger] bloom_has_bit(data, start, bloom_index(id, k, bits))
}

/// The filter after setting the bits of the first `n` hash functions for `id`.
pub open spec fn bloom_add(data: Seq<u8>, start: int, id: Seq<u8>, bits: usize, n: nat) -> Seq<u8>
    decreases n,
{
    if n == 0 {
        data
    } else {
        let d = bloom_add(data, start, id, bits, (n - 1) as nat);
        let idx = bloom_index(id, n - 1, bits);
        let p = start + idx / 8;
        d.update(p, d[p] | (1u8 << ((idx % 8) as u8)))
    }
}

/// The filter's bytes fit inside `data`.
pub open spec fn bloom_fits(data: Seq<u8>, start: int, bits: usize) -> bool {
    &&& bits > 0
    &&& 0 <= start
    &&& start + (bits - 1) / 8 < data.len()
}

/// Every byte that `id` selects in the filter lies inside `data`: what
/// looking `id` up or inserting it reads and writes.
pub open spec fn bloom_in_range(data: Seq<u8>, start: int, id: Seq<u8>, bits: usize) -> bool {
    &&& bits > 0
    &&& 0 <= start
    &&& forall|k: int| 0 <= k < BLOOM_HASH_COUNT ==> start + #[trigger] bloom_index(id, k, bits) / 8 < data.len()
}

proof fn lemma_bit_set(b: u8, m: u8, k: u8)
    requires
        m < 8,
        k < 8,
    ensures
        ((b | (1u8 << m)) & (1u8 << k)) != 0 <==> ((b & (1u8 << k)) != 0 || m == k),
{
    assert(m < 8 && k < 8 ==> (((b | (1u8 << m)) & (1u8 << k)) != 0 <==> ((b & (1u8 << k)) != 0
        || m == k))) by (bit_vector);
}

proof fn lemma_bit_already_set(b: u8, m: u8)
    requires
        m < 8,
        (b & (1u8 << m)) != 0,
    ensures
        (b | (1u8 << m)) == b,
{
    assert(m < 8 && (b & (1u8 << m)) != 0 ==> (b | (1u8 << m)) == b) by (bit_vector);
}

proof fn lemma_index_in_range(id: Seq<u8>, k: int, data: Seq<u8>, start: int, bits: usize)
    requires
        bloom_in_range(data, start, id, bits),
        0 <= k < BLOOM_HASH_COUNT,
    ensures
        bloom_index(id, k, bits) < bits,
        start + bloom_index(id, k, bits) / 8 < data.len(),
{
}

/// A filter that fits in the data holds every identifier's bytes.
pub proof fn lemma_fits_in_range(data: Seq<u8>, start: int, id: Seq<u8>, bits: usize)
    requires
        bloom_fits(data, start, bits),
    ensures
        bloom_in_range(data, start, id, bits),
{
    assert forall|k: int| 0 <= k < BLOOM_HASH_COUNT implies start + #[trigger] bloom_index(id, k, bits) / 8
        < data.len() by {
        let idx = bloom_index(id, k, bits);
        assert(idx / 8 <= (bits - 1) / 8) by (nonlinear_arith)
            requires
                idx < bits,
        ;
    }
}

/// Which bits the first `n` insertions of `id` have set: a bit is set
/// afterwards exactly when it was set before or one of them selected it.
pub proof fn lemma_bloom_add_bit(
    data: Seq<u8>,
    start: int,
    id: Seq<u8>,
    bits: usize,
    n: nat,
    idx: usize,
)
    requires
        bloom_in_range(data, start, id, bits),
        n <= BLOOM_HASH_COUNT,
        idx < bits,
        start + idx / 8 < data.len(),
    ensures
        bloom_add(data, start, id, bits, n).len() == data.len(),
        bloom_has_bit(bloom_add(data, start, id, bits, n), start, idx) <==> (bloom_has_bit(
            data,
            start,
            idx,
        ) || exists|j: int| 0 <= j < n && #[trigger] bloom_index(id, j, bits) == idx),
    decreases n,
{
    if n > 0 {
        lemma_bloom_add_bit(data, start, id, bits, (n - 1) as nat, idx);
        let d = bloom_add(data, start, id, bits, (n - 1) as nat);
        let m = bloom_index(id, n - 1, bits);
        lemma_index_in_range(id, n - 1, data, start, bits);
        let p = start + m / 8;
        let q = start + idx / 8;
        if p == q {
            lemma_bit_set(d[p], (m % 8) as u8, (idx % 8) as u8);
            assert((m % 8 == idx % 8) <==> m == idx) by {
                assert(m / 8 == idx / 8);
                assert(m == 8 * (m / 8) + m % 8);
                assert(idx == 8 * (idx / 8) + idx % 8);
            }
        } else {
            assert(m != idx);
        }
        if exists|j: int| 0 <= j < n && #[trigger] bloom_index(id, j, bits) == idx {
            let j = choose|j: int| 0 <= j < n && #[trigger] bloom_index(id, j, bits) == idx;
            if j < n - 1 {
                assert(exists|j2: int| 0 <= j2 < n - 1 && #[trigger] bloom_index(id, j2, bits) == idx);
            }
        }
        if exists|j: int| 0 <= j < n - 1 && #[trigger] bloom_index(id, j, bits) == idx {
            let j = choose|j: int| 0 <= j < n - 1 && #[trigger] bloom_index(id, j, bits) == idx;
            assert(0 <= j < n && bloom_index(id, j, bits) == idx);
        }
    }
}

/// Inserting leaves the bytes before the filter and the length as they were.
pub proof fn lemma_bloom_add_frame(
    data: Seq<u8>,
    start: int,
    id: Seq<u8>,
    bits: usize,
    n: nat,
    a: int,
    len: int,
)
    requires
        bloom_in_range(data, start, id, bits),
        n <= BLOOM_HASH_COUNT,
        0 <= a,
        0 <= len,
        a + len <= start,
    ensures
        bloom_add(data, start, id, bits, n).len() == data.len(),
        bloom_add(data, start, id, bits, n).subrange(a, a + len) == data.subrange(a, a + len),
    decreases n,
{
    if n > 0 {
        lemma_bloom_add_frame(data, start, id, bits, (n - 1) as nat, a, len);
        lemma_index_in_range(id, n - 1, data, start, bits);
        let d = bloom_add(data, start, id, bits, (n - 1) as nat);
        let idx = bloom_index(id, n - 1, bits);
        let p = start + idx / 8;
        assert(d.update(p, d[p] | (1u8 << ((idx % 8) as u8))).subrange(a, a + len) =~= d.subrange(
            a,
            a + len,
        ));
    }
}

/// Inserting leaves every byte past the filter as it was.
pub proof fn lemma_bloom_add_frame_after(data: Seq<u8>, start: int, id: Seq<u8>, bits: usize, n: nat, p: int)
    requires
        bloom_in_range(data, start, id, bits),
        n <= BLOOM_HASH_COUNT,
        start + (bits - 1) / 8 < p < data.len(),
    ensures
        bloom_add(data, start, id, bits, n).len() == data.len(),
        bloom_add(data, start, id, bits, n)[p] == data[p],
    decreases n,
{
    lemma_bloom_add_frame(data, start, id, bits, n, 0, 0);
    if n > 0 {
        lemma_bloom_add_frame_after(data, start, id, bits, (n - 1) as nat, p);
        lemma_index_in_range(id, n - 1, data, start, bits);
        let idx = bloom_index(id, n - 1, bits);
        assert(idx / 8 <= (bits - 1) / 8) by (nonlinear_arith)
            requires
                idx < bits,
        ;
    }
}

proof fn lemma_or_keeps_bit(b: u8, m: u8, k: u8)
    requires
        m < 8,
        k < 8,
        (b & (1u8 << k)) != 0,
    ensures
        ((b | (1u8 << m)) & (1u8 << k)) != 0,
{
    assert(m < 8 && k < 8 && (b & (1u8 << k)) != 0 ==> ((b | (1u8 << m)) & (1u8 << k)) != 0) by (bit_vector);
}

/// Inserting into a filter never clears a bit, wherever it lies.
pub proof fn lemma_bloom_add_keeps_bit(
    data: Seq<u8>,
    start: int,
    id: Seq<u8>,
    bits: usize,
    n: nat,
    q: int,
    bit: usize,
)
    requires
        bloom_in_range(data, start, id, bits),
        n <= BLOOM_HASH_COUNT,
        0 <= q < data.len(),
        bit < 8,
        bit_of(data[q], bit),
    ensures
        bit_of(bloom_add(data, start, id, bits, n)[q], bit),
    decreases n,
{
    if n > 0 {
        lemma_bloom_add_keeps_bit(data, start, id, bits, (n - 1) as nat, q, bit);
        lemma_bloom_add_frame(data, start, id, bits, (n - 1) as nat, 0, 0);
        lemma_index_in_range(id, n - 1, data, start, bits);
        let d = bloom_add(data, start, id, bits, (n - 1) as nat);
        let idx = bloom_index(id, n - 1, bits);
        let p = start + idx / 8;
        if p == q {
            lemma_or_keeps_bit(d[p], (idx % 8) as u8, bit as u8);
        }
    }
}

/// Inserting into one filter keeps every identifier that another filter
/// in the same data (or the same one) reports.
pub proof fn lemma_bloom_add_keeps_contains(
    data: Seq<u8>,
    start: int,
    id: Seq<u8>,
    start2: int,
    other: Seq<u8>,
    bits: usize,
)
    requires
        bloom_in_range(data, start, id, bits),
        bloom_in_range(data, start2, other, bits),
        bloom_contains(data, start2, other, bits),
    ensures
        bloom_contains(bloom_add(data, start, id, bits, BLOOM_HASH_COUNT as nat), start2, other, bits),
{
    let d = bloom_add(data, start, id, bits, BLOOM_HASH_COUNT as nat);
    assert forall|k: int| 0 <= k < BLOOM_HASH_COUNT implies #[trigger] bloom_has_bit(
        d,
        start2,
        bloom_index(other, k, bits),
    ) by {
        lemma_index_in_range(other, k, data, start2, bits);
        let idx = bloom_index(other, k, bits);
        assert(bloom_has_bit(data, start2, idx));
        lemma_bloom_add_keeps_bit(data, start, id, bits, BLOOM_HASH_COUNT as nat, start2 + idx / 8, idx % 8);
    }
}

/// After inserting `id`, the filter reports `id` as seen.
pub proof fn lemma_bloom_no_false_negative(data: Seq<u8>, start: int, id: Seq<u8>, bits: usize)
    requires
        bloom_in_range(data, start, id, bits),
    ensures
        bloom_contains(
            bloom_add(data, start, id, bits, BLOOM_HASH_COUNT as nat),
            start,
            id,
            bits,
        ),
{
    let d = bloom_add(data, start, id, bits, BLOOM_HASH_COUNT as nat);
    assert forall|k: int| 0 <= k < BLOOM_HASH_COUNT implies #[trigger] bloom_has_bit(
        d,
        start,
        bloom_index(id, k, bits),
    ) by {
        lemma_index_in_range(id, k, data, start, bits);
        lemma_bloom_add_bit(
            data,
            start,
            id,
            bits,
            BLOOM_HASH_COUNT as nat,
            bloom_index(id, k, bits),
        );
    }
}

/// Inserting one identifier never makes the filter forget another.
pub proof fn lemma_bloom_monotone(
    data: Seq<u8>,
    start: int,
    id: Seq<u8>,
    other: Seq<u8>,
    bits: usize,
)
    requires
        bloom_in_range(data, start, id, bits),
        bloom_in_range(data, start, other, bits),
        bloom_contains(data, start, other, bits),
    ensures
        bloom_contains(
            bloom_add(data, start, id, bits, BLOOM_HASH_COUNT as nat),
            start,
            other,
            bits,
        ),
{
    let d = bloom_add(data, start, id, bits, BLOOM_HASH_COUNT as nat);
    assert forall|k: int| 0 <= k < BLOOM_HASH_COUNT implies #[trigger] bloom_has_bit(
        d,
        start,
        bloom_index(other, k, bits),
    ) by {
        lemma_index_in_range(other, k, data, start, bits);
        assert(bloom_has_bit(data, start, bloom_index(other, k, bits)));
        lemma_bloom_add_bit(
            data,
            start,
            id,
            bits,
            BLOOM_HASH_COUNT as nat,
            bloom_index(other, k, bits),
        );
    }
}

/// Inserting an identifier the filter already reports leaves it as it
/// was.
pub proof fn lemma_bloom_add_idempotent(data: Seq<u8>, start: int, id: Seq<u8>, bits: usize, n: nat)
    requires
        bloom_in_range(data, start, id, bits),
        bloom_contains(data, start, id, bits),
        n <= BLOOM_HASH_COUNT,
    ensures
        bloom_add(data, start, id, bits, n) == data,
    decreases n,
{
    if n > 0 {
        lemma_bloom_add_idempotent(data, start, id, bits, (n - 1) as nat);
        let idx = bloom_index(id, n - 1, bits);
        lemma_index_in_range(id, n - 1, data, start, bits);
        assert(bloom_has_bit(data, start, idx));
        let p = start + idx / 8;
        lemma_bit_already_set(data[p], (idx % 8) as u8);
        assert(data.update(p, data[p] | (1u8 << ((idx % 8) as u8))) =~= data);
    }
}

/// Whether a filter reports an identifier depends only on the filter's own
/// bytes: data that agrees on them agrees on every identifier.
pub proof fn lemma_bloom_contains_frame(d1: Seq<u8>, d2: Seq<u8>, start: int, id: Seq<u8>, bits: usize)
    requires
        bloom_in_range(d1, start, id, bits),
        d1.len() == d2.len(),
        forall|k: int|
            0 <= k < BLOOM_HASH_COUNT ==> d1[start + #[trigger] bloom_index(id, k, bits) / 8] == d2[start
                + bloom_index(id, k, bits) / 8],
        bloom_contains(d1, start, id, bits),
    ensures
        bloom_contains(d2, start, id, bits),
{
    assert forall|k: int| 0 <= k < BLOOM_HASH_COUNT implies #[trigger] bloom_has_bit(
        d2,
        start,
        bloom_index(id, k, bits),
    ) by {
        let idx = bloom_index(id, k, bits);
        assert(bloom_has_bit(d1, start, idx));
        assert(d1[start + idx / 8] == d2[start + idx / 8]);
    }
}

/// Whether every byte that `id` selects in the filter lies inside `data`
/// (see [`bloom_in_range`]).
pub fn bloom_lookup_fits(data: &Vec<u8>, start: usize, id: &[u8], bits: usize) -> (ok: bool)
    ensures
        ok == bloom_in_range(data@, start as int, id@, bits),
{
    if bits == 0 {
        return false;
    }
    let len = data.len();
    let mut k: usize = 0;
    while k < BLOOM_HASH_COUNT
        invariant
            k <= BLOOM_HASH_COUNT,
            bits > 0,
            len == data@.len(),
            forall|j: int| 0 <= j < k ==> start + #[trigger] bloom_index(id@, j, bits) / 8 < data@.len(),
        decreases BLOOM_HASH_COUNT - k,
    {
        let index = hash(id, k as u64) % bits;
        let byte = index / 8;
        if byte >= len || start >= len - byte {
            assert(start + bloom_index(id@, k as int, bits) / 8 >= data@.len());
            return false;
        }
        k = k + 1;
    }
    true
}

/// Sets the bits that `id` selects in the filter of `bits` bits that starts
/// at byte `start`; returns whether one of them was clear, that is, whether
/// `id` is new to the filter.
pub fn bloom_insert(data: &mut Vec<u8>, start: usize, id: &[u8], bits: usize) -> (is_new: bool)
    requires
        bloom_in_range(old(data)@, start as int, id@, bits),
    ensures
        final(data)@ == bloom_add(old(data)@, start as int, id@, bits, BLOOM_HASH_COUNT as nat),
        final(data)@.len() == old(data)@.len(),
        is_new == !bloom_contains(old(data)@, start as int, id@, bits),
{
    let ghost orig = data@;
    let len = data.len();
    let mut not_contained: usize = 0;
    let mut i: usize = 0;
    while i < BLOOM_HASH_COUNT
        invariant
            i <= BLOOM_HASH_COUNT,
            len == orig.len(),
            bloom_in_range(orig, start as int, id@, bits),
            data@ == bloom_add(orig, start as int, id@, bits, i as nat),
            not_contained <= i,
            (not_contained > 0) <==> exists|j: int|
                0 <= j < i && !#[trigger] bloom_has_bit(orig, start as int, bloom_index(id@, j, bits)),
        decreases BLOOM_HASH_COUNT - i,
    {
        let index = hash(id, i as u64) % bits;
        let byte = index / 8;
        let bit = index % 8;
        proof {
            lemma_index_in_range(id@, i as int, orig, start as int, bits);
            lemma_bloom_add_bit(orig, start as int, id@, bits, i as nat, index);
            lemma_bloom_add_bit(orig, start as int, id@, bits, i as nat, index);
        }
        let index_byte = start + byte;
        let mask: u8 = 1u8 << (bit as u8);
        let exists = data[index_byte] & mask != 0;
        proof {
            assert(exists == bloom_has_bit(data@, start as int, index));
            if exists && !bloom_has_bit(orig, start as int, index) {
                let j = choose|j: int| 0 <= j < i && #[trigger] bloom_index(id@, j, bits) == index;
                assert(!bloom_has_bit(orig, start as int, bloom_index(id@, j, bits)));
            }
        }
        if !exists {
            not_contained = not_contained + 1;
        }
        let old_byte = data[index_byte];
        data.set(index_byte, old_byte | mask);
        i = i + 1;
        proof {
            if exists|j: int|
                0 <= j < i && !#[trigger] bloom_has_bit(orig, start as int, bloom_index(id@, j, bits)) {
                let j = choose|j: int|
                    0 <= j < i && !#[trigger] bloom_has_bit(orig, start as int, bloom_index(id@, j, bits));
                if j < i - 1 {
                    assert(exists|j2: int|
                        0 <= j2 < i - 1 && !#[trigger] bloom_has_bit(
                            orig,
                            start as int,
                            bloom_index(id@, j2, bits),
                        ));
                }
            }
        }
    }
    proof {
        if not_contained > 0 {
            let j = choose|j: int|
                0 <= j < BLOOM_HASH_COUNT && !#[trigger] bloom_has_bit(orig, start as int, bloom_index(id@, j, bits));
            assert(!bloom_has_bit(orig, start as int, bloom_index(id@, j, bits)));
        } else {
            assert forall|k: int| 0 <= k < BLOOM_HASH_COUNT implies #[trigger] bloom_has_bit(
                orig,
                start as int,
                bloom_index(id@, k, bits),
            ) by {
                if !bloom_has_bit(orig, start as int, bloom_index(id@, k, bits)) {
                    assert(exists|j: int|
                        0 <= j < BLOOM_HASH_COUNT && !#[trigger] bloom_has_bit(
                            orig,
                            start as int,
                            bloom_index(id@, j, bits),
                        ));
                }
            }
        }
    }
    proof {
        lemma_bloom_add_frame(orig, start as int, id@, bits, BLOOM_HASH_COUNT as nat, 0, 0);
    }
    not_contained > 0
}

} // verus!

//! Little-endian fields inside raw account data.
use vstd::bytes::*;
use vstd::prelude::*;

verus! {

/// `s` with the bytes of `b` written over it from position `off` on.
pub open spec fn splice(s: Seq<u8>, off: int, b: Seq<u8>) -> Seq<u8> {
    s.take(off) + b + s.skip(off + b.len())
}

/// The little-endian `u16` stored at `off`.
pub open spec fn read_u16(s: Seq<u8>, off: int) -> u16 {
    spec_u16_from_le_bytes(s.subrange(off, off + 2))
}

/// The little-endian `u32` stored at `off`.
pub open spec fn read_u32(s: Seq<u8>, off: int) -> u32 {
    spec_u32_from_le_bytes(s.subrange(off, off + 4))
}

/// The little-endian `u64` stored at `off`.
pub open spec fn read_u64(s: Seq<u8>, off: int) -> u64 {
    spec_u64_from_le_bytes(s.subrange(off, off + 8))
}

/// The little-endian bytes of a `u16`.
pub open spec fn le16(v: u16) -> Seq<u8> {
    spec_u16_to_le_bytes(v)
}

/// The little-endian bytes of a `u32`.
pub open spec fn le32(v: u32) -> Seq<u8> {
    spec_u32_to_le_bytes(v)
}

/// The little-endian bytes of a `u64`.
pub open spec fn le64(v: u64) -> Seq<u8> {
    spec_u64_to_le_bytes(v)
}

/// Eight zero bytes.
pub open spec fn zeros(n: nat) -> Seq<u8> {
    Seq::new(n, |i: int| 0u8)
}

pub proof fn lemma_le_lengths(a: u16, b: u32, c: u64)
    ensures
        le16(a).len() == 2,
        le32(b).len() == 4,
        le64(c).len() == 8,
        spec_u16_from_le_bytes(le16(a)) == a,
        spec_u32_from_le_bytes(le32(b)) == b,
        spec_u64_from_le_bytes(le64(c)) == c,
{
    lemma_auto_spec_u16_to_from_le_bytes();
    lemma_auto_spec_u32_to_from_le_bytes();
    lemma_auto_spec_u64_to_from_le_bytes();
    assert(spec_u16_to_le_bytes(a).len() == 2);
    assert(spec_u32_to_le_bytes(b).len() == 4);
    assert(spec_u64_to_le_bytes(c).len() == 8);
}

/// The big-endian bytes of a `u64`: its little-endian bytes reversed.
pub open spec fn be64(v: u64) -> Seq<u8> {
    le64(v).reverse()
}

/// A splice leaves the length unchanged and reads back what it wrote.
pub proof fn lemma_splice_basics(s: Seq<u8>, off: int, b: Seq<u8>)
    requires
        0 <= off,
        off + b.len() <= s.len(),
    ensures
        splice(s, off, b).len() == s.len(),
        splice(s, off, b).subrange(off, off + b.len()) == b,
{
    assert(splice(s, off, b).subrange(off, off + b.len()) =~= b);
}

/// A splice does not touch the bytes outside the range it writes.
pub proof fn lemma_splice_disjoint(s: Seq<u8>, off: int, b: Seq<u8>, a: int, n: int)
    requires
        0 <= off,
        off + b.len() <= s.len(),
        0 <= a,
        0 <= n,
        a + n <= s.len(),
        a + n <= off || off + b.len() <= a,
    ensures
        splice(s, off, b).subrange(a, a + n) == s.subrange(a, a + n),
{
    assert(splice(s, off, b).subrange(a, a + n) =~= s.subrange(a, a + n));
}

/// Writes `b` into `data` from position `off` on.
pub fn write_bytes(data: &mut Vec<u8>, off: usize, b: &[u8])
    requires
        off + b@.len() <= old(data)@.len(),
    ensures
        final(data)@ == splice(old(data)@, off as int, b@),
        final(data)@.len() == old(data)@.len(),
{
    let ghost orig = data@;
    let len = data.len();
    let mut i: usize = 0;
    while i < b.len()
        invariant
            len == orig.len(),
            i <= b@.len(),
            off + b@.len() <= orig.len(),
            data@.len() == orig.len(),
            data@ =~= splice(orig, off as int, b@.take(i as int)),
        decreases b@.len() - i,
    {
        data.set(off + i, b[i]);
        i = i + 1;
        assert(data@ =~= splice(orig, off as int, b@.take(i as int)));
    }
    assert(b@.take(b@.len() as int) =~= b@);
}

/// Writes `n` zero bytes from position `off` on.
pub fn write_zeros(data: &mut Vec<u8>, off: usize, n: usize)
    requires
        off + n <= old(data)@.len(),
    ensures
        final(data)@ == splice(old(data)@, off as int, zeros(n as nat)),
        final(data)@.len() == old(data)@.len(),
{
    let ghost orig = data@;
    let len = data.len();
    let mut i: usize = 0;
    while i < n
        invariant
            len == orig.len(),
            i <= n,
            off + n <= orig.len(),
            data@.len() == orig.len(),
            data@ =~= splice(orig, off as int, zeros(i as nat)),
        decreases n - i,
    {
        data.set(off + i, 0);
        i = i + 1;
        assert(data@ =~= splice(orig, off as int, zeros(i as nat)));
    }
}

/// The `n` bytes of `data` from position `off` on.
pub fn read_bytes(data: &Vec<u8>, off: usize, n: usize) -> (r: Vec<u8>)
    requires
        off + n <= data@.len(),
    ensures
        r@ == data@.subrange(off as int, off + n),
{
    let mut r: Vec<u8> = Vec::new();
    let len = data.len();
    let mut i: usize = 0;
    while i < n
        invariant
            len == data@.len(),
            i <= n,
            off + n <= data@.len(),
            r@ =~= data@.subrange(off as int, off + i),
        decreases n - i,
    {
        r.push(data[off + i]);
        i = i + 1;
        assert(r@ =~= data@.subrange(off as int, off + i));
    }
    r
}

/// Reads the little-endian `u16` at `off`.
pub fn get_u16(data: &Vec<u8>, off: usize) -> (v: u16)
    requires
        off + 2 <= data@.len(),
    ensures
        v == read_u16(data@, off as int),
{
    let b = read_bytes(data, off, 2);
    u16_from_le_bytes(b.as_slice())
}

/// Reads the little-endian `u32` at `off`.
pub fn get_u32(data: &Vec<u8>, off: usize) -> (v: u32)
    requires
        off + 4 <= data@.len(),
    ensures
        v == read_u32(data@, off as int),
{
    let b = read_bytes(data, off, 4);
    u32_from_le_bytes(b.as_slice())
}

/// Reads the little-endian `u64` at `off`.
pub fn get_u64(data: &Vec<u8>, off: usize) -> (v: u64)
    requires
        off + 8 <= data@.len(),
    ensures
        v == read_u64(data@, off as int),
{
    let b = read_bytes(data, off, 8);
    u64_from_le_bytes(b.as_slice())
}

/// Writes `v` little-endian at `off`.
pub fn put_u16(data: &mut Vec<u8>, off: usize, v: u16)
    requires
        off + 2 <= old(data)@.len(),
    ensures
        final(data)@ == splice(old(data)@, off as int, le16(v)),
        final(data)@.len() == old(data)@.len(),
{
    let b = u16_to_le_bytes(v);
    write_bytes(data, off, b.as_slice());
}

/// Writes `v` little-endian at `off`.
pub fn put_u32(data: &mut Vec<u8>, off: usize, v: u32)
    requires
        off + 4 <= old(data)@.len(),
    ensures
        final(data)@ == splice(old(data)@, off as int, le32(v)),
        final(data)@.len() == old(data)@.len(),
{
    let b = u32_to_le_bytes(v);
    write_bytes(data, off, b.as_slice());
}

/// Writes `v` big-endian at `off`.
pub fn put_u64_be(data: &mut Vec<u8>, off: usize, v: u64)
    requires
        off + 8 <= old(data)@.len(),
    ensures
        final(data)@ == splice(old(data)@, off as int, be64(v)),
        final(data)@.len() == old(data)@.len(),
{
    let b = u64_to_le_bytes(v);
    let mut r: Vec<u8> = Vec::new();
    let mut i: usize = 8;
    while i > 0
        invariant
            i <= 8,
            b@.len() == 8,
            r@.len() == 8 - i,
            forall|j: int| 0 <= j < r@.len() ==> r@[j] == b@[7 - j],
        decreases i,
    {
        i = i - 1;
        r.push(b[i]);
    }
    assert(r@ =~= b@.reverse());
    write_bytes(data, off, r.as_slice());
}

/// Writes `v` little-endian at `off`.
pub fn put_u64(data: &mut Vec<u8>, off: usize, v: u64)
    requires
        off + 8 <= old(data)@.len(),
    ensures
        final(data)@ == splice(old(data)@, off as int, le64(v)),
        final(data)@.len() == old(data)@.len(),
{
    let b = u64_to_le_bytes(v);
    write_bytes(data, off, b.as_slice());
}

/// The 32 bytes of `data` from position `off` on, as a key.
pub fn read_key(data: &Vec<u8>, off: usize) -> (k: [u8; 32])
    requires
        off + 32 <= data@.len(),
    ensures
        k@ == data@.subrange(off as int, off + 32),
{
    let len = data.len();
    let mut k: [u8; 32] = [0u8; 32];
    let mut i: usize = 0;
    while i < 32
        invariant
            i <= 32,
            len == data@.len(),
            off + 32 <= len,
            forall|j: int| 0 <= j < i ==> k@[j] == data@[off + j],
        decreases 32 - i,
    {
        k[i] = data[off + i];
        i = i + 1;
    }
    assert(k@ =~= data@.subrange(off as int, off + 32));
    k
}

/// Whether two keys are equal.
pub fn keys_equal(x: &[u8; 32], y: &[u8; 32]) -> (r: bool)
    ensures
        r == (x@ == y@),
{
    let mut i: usize = 0;
    while i < 32
        invariant
            i <= 32,
            forall|j: int| 0 <= j < i ==> x@[j] == y@[j],
        decreases 32 - i,
    {
        if x[i] != y[i] {
            return false;
        }
        i = i + 1;
    }
    assert(x@ =~= y@);
    true
}

/// Whether every byte of a key is zero.
pub fn key_is_zero(x: &[u8; 32]) -> (r: bool)
    ensures
        r == (x@ == zeros(32)),
{
    let mut i: usize = 0;
    while i < 32
        invariant
            i <= 32,
            forall|j: int| 0 <= j < i ==> x@[j] == 0,
        decreases 32 - i,
    {
        if x[i] != 0 {
            assert(x@[i as int] != zeros(32)[i as int]);
            return false;
        }
        i = i + 1;
    }
    assert(x@ =~= zeros(32));
    true
}

/// `s` cut or zero-extended to `n` bytes.
pub open spec fn resized(s: Seq<u8>, n: nat) -> Seq<u8> {
    if n <= s.len() {
        s.take(n as int)
    } else {
        s + zeros((n - s.len()) as nat)
    }
}

/// Cuts `data` to `n` bytes, or extends it with zeros to `n` bytes.
pub fn resize_data(data: &mut Vec<u8>, n: usize)
    ensures
        final(data)@ == resized(old(data)@, n as nat),
{
    let ghost d0 = data@;
    data.resize(n, 0u8);
    proof {
        if n as nat > d0.len() {
            assert forall|i: int| d0.len() <= i < n implies data@[i] == 0u8 by {
                assert(cloned::<u8>(0u8, data@[i]));
            }
            assert(data@ =~= resized(d0, n as nat)) by {
                assert(data@.subrange(0, d0.len() as int) == d0);
                assert forall|i: int| 0 <= i < n implies data@[i] == resized(d0, n as nat)[i] by {
                    if i < d0.len() {
                        assert(data@[i] == data@.subrange(0, d0.len() as int)[i]);
                    }
                }
            }
        } else {
            assert(data@ =~= resized(d0, n as nat));
        }
    }
}

/// What resizing an account's data does: an increase of more than
/// [`MAX_ACCOUNT_GROWTH`](crate::layout::MAX_ACCOUNT_GROWTH) bytes is refused;
/// otherwise the data is cut or zero-extended.
pub fn resize_account(data: &mut Vec<u8>, n: usize) -> (ok: bool)
    ensures
        ok == (n <= old(data)@.len() + crate::layout::MAX_ACCOUNT_GROWTH),
        ok ==> final(data)@ == resized(old(data)@, n as nat),
        !ok ==> final(data)@ == old(data)@,
{
    let len = data.len();
    if n > len && n - len > crate::layout::MAX_ACCOUNT_GROWTH {
        return false;
    }
    resize_data(data, n);
    true
}

} // verus!

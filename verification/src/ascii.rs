//! Printable-ASCII encodings used in NFT symbols and metadata URIs.
use crate::external::{string_push, utf8_lossy, spec_utf8_lossy};
use vstd::arithmetic::div_mod::lemma_fundamental_div_mod;
use vstd::prelude::*;
use vstd::utf8::{decode_utf8, valid_utf8};

verus! {

/// Size of the 94-character alphabet `!` ..= `~`.
pub const ASCII_STRING_LEN: u64 = 94;

/// Size of the URL-safe alphabet `0-9 A-Z [ ] a-z { | } ~`.
pub const ASCII_SAFE_LEN: u64 = 68;

/// Digit `d` (< 94) of the alphabet `!"#...}~`: the character with code `33 + d`.
pub open spec fn ascii_string_char(d: int) -> char {
    ((33 + d) as u8) as char
}

/// Digit `d` (< 68) of the alphabet `0-9 A-Z [ ] a-z { | } ~`.
pub open spec fn ascii_safe_char(d: int) -> char {
    (if d < 10 {
        (48 + d) as u8
    } else if d < 36 {
        (55 + d) as u8
    } else if d == 36 {
        91u8
    } else if d == 37 {
        93u8
    } else {
        (59 + d) as u8
    }) as char
}

/// Digit `d` (< 92) of the alphabet `"!#$...{|`: `!` and `"` swapped, then codes `33 + d`.
pub open spec fn ascii_np_char(d: int) -> char {
    (if d == 0 {
        34u8
    } else if d == 1 {
        33u8
    } else {
        (33 + d) as u8
    }) as char
}

/// The digits of `v` in base 94 (or 68 when `safe`), most significant first,
/// each written with its alphabet; zero gives the empty string.
pub open spec fn spec_encode_u64(v: nat, safe: bool) -> Seq<char>
    decreases v,
{
    let base: nat = if safe { 68 } else { 94 };
    if v == 0 {
        Seq::empty()
    } else {
        let d = (v % base) as int;
        spec_encode_u64(v / base, safe).push(
            if safe {
                ascii_safe_char(d)
            } else {
                ascii_string_char(d)
            },
        )
    }
}

/// The characters that encode one byte: a byte at or above a threshold is
/// written as a marker character followed by the digit of what remains.
pub open spec fn spec_encode_byte(b: u8, safe: bool) -> Seq<char> {
    if safe {
        if b >= 195 {
            seq!['|', ascii_safe_char(b - 195)]
        } else if b >= 130 {
            seq!['~', ascii_safe_char(b - 130)]
        } else if b >= 65 {
            seq!['}', ascii_safe_char(b - 65)]
        } else {
            seq![ascii_safe_char(b as int)]
        }
    } else {
        if b >= 182 {
            seq!['~', ascii_np_char(b - 182)]
        } else if b >= 91 {
            seq!['}', ascii_np_char(b - 91)]
        } else {
            seq![ascii_np_char(b as int)]
        }
    }
}

/// The encodings of the bytes of `s`, one after the other.
pub open spec fn spec_encode_bytes(s: Seq<u8>, safe: bool) -> Seq<char>
    decreases s.len(),
{
    if s.len() == 0 {
        Seq::empty()
    } else {
        spec_encode_byte(s[0], safe) + spec_encode_bytes(s.drop_first(), safe)
    }
}

fn ascii_string_digit(d: u64) -> (c: char)
    requires
        d < 94,
    ensures
        c == ascii_string_char(d as int),
{
    ((33 + d) as u8) as char
}

fn ascii_safe_digit(d: u64) -> (c: char)
    requires
        d < 68,
    ensures
        c == ascii_safe_char(d as int),
{
    let code: u8 = if d < 10 {
        (48 + d) as u8
    } else if d < 36 {
        (55 + d) as u8
    } else if d == 36 {
        91
    } else if d == 37 {
        93
    } else {
        (59 + d) as u8
    };
    code as char
}

fn ascii_np_digit(d: u8) -> (c: char)
    requires
        d < 92,
    ensures
        c == ascii_np_char(d as int),
{
    let code: u8 = if d == 0 {
        34
    } else if d == 1 {
        33
    } else {
        33 + d
    };
    code as char
}

fn encode_u64(value: u64, safe: bool) -> (r: String)
    ensures
        r@ == spec_encode_u64(value as nat, safe),
{
    let base: u64 = if safe {
        ASCII_SAFE_LEN
    } else {
        ASCII_STRING_LEN
    };
    let mut rev: Vec<char> = Vec::new();
    let mut num = value;
    while num > 0
        invariant
            base == (if safe { 68u64 } else { 94u64 }),
            spec_encode_u64(value as nat, safe) == spec_encode_u64(num as nat, safe) + rev@.reverse(),
        decreases num,
    {
        let d = num % base;
        let c = if safe {
            ascii_safe_digit(d)
        } else {
            ascii_string_digit(d)
        };
        let ghost before = rev@;
        rev.push(c);
        assert(rev@.reverse() =~= seq![c] + before.reverse());
        num = num / base;
    }
    assert(spec_encode_u64(0, safe) =~= Seq::<char>::empty());
    let mut r = String::new();
    let mut i: usize = rev.len();
    while i > 0
        invariant
            i <= rev@.len(),
            r@ =~= rev@.reverse().take(rev@.len() - i),
            spec_encode_u64(value as nat, safe) == rev@.reverse(),
        decreases i,
    {
        i = i - 1;
        string_push(&mut r, rev[i]);
        assert(rev@.reverse().take(rev@.len() - i) =~= rev@.reverse().take(rev@.len() - i - 1).push(
            rev@[i as int],
        ));
    }
    assert(rev@.reverse().take(rev@.len() as int) =~= rev@.reverse());
    r
}

/// `value` in base 94 over the characters `!` ..= `~`, most significant digit
/// first; zero gives the empty string.
pub fn encode_u64_to_ascii_string(value: u64) -> (r: String)
    ensures
        r@ == spec_encode_u64(value as nat, false),
{
    encode_u64(value, false)
}

/// `value` in base 68 over the URL-safe alphabet `0-9 A-Z [ ] a-z { | } ~`,
/// most significant digit first; zero gives the empty string.
pub fn encode_u64_to_ascii_string_safe(value: u64) -> (r: String)
    ensures
        r@ == spec_encode_u64(value as nat, true),
{
    encode_u64(value, true)
}

proof fn lemma_encode_bytes_push(s: Seq<u8>, b: u8, safe: bool)
    ensures
        spec_encode_bytes(s.push(b), safe) == spec_encode_bytes(s, safe) + spec_encode_byte(b, safe),
    decreases s.len(),
{
    if s.len() == 0 {
        let t = s.push(b);
        assert(t.drop_first() =~= Seq::<u8>::empty());
        assert(spec_encode_bytes(t.drop_first(), safe) =~= Seq::<char>::empty());
        assert(t[0] == b);
        assert(spec_encode_bytes(s, safe) =~= Seq::<char>::empty());
        assert(spec_encode_bytes(t, safe) =~= spec_encode_bytes(s, safe) + spec_encode_byte(b, safe));
    } else {
        lemma_encode_bytes_push(s.drop_first(), b, safe);
        assert(s.push(b).drop_first() =~= s.drop_first().push(b));
        assert(spec_encode_bytes(s.push(b), safe) =~= spec_encode_bytes(s, safe) + spec_encode_byte(
            b,
            safe,
        ));
    }
}

fn push_encoded_byte(r: &mut String, byte: u8, safe: bool)
    ensures
        final(r)@ == old(r)@ + spec_encode_byte(byte, safe),
{
    let ghost start = r@;
    if safe {
        let mut value: u8 = byte;
        if value >= 195 {
            string_push(r, '|');
            value = value - 195;
        } else if value >= 130 {
            string_push(r, '~');
            value = value - 130;
        } else if value >= 65 {
            string_push(r, '}');
            value = value - 65;
        }
        string_push(r, ascii_safe_digit(value as u64));
    } else {
        let mut value: u8 = byte;
        if value >= 182 {
            string_push(r, '~');
            value = value - 182;
        } else if value >= 91 {
            string_push(r, '}');
            value = value - 91;
        }
        string_push(r, ascii_np_digit(value));
    }
    assert(r@ =~= start + spec_encode_byte(byte, safe));
}

/// Each byte written as one or two printable characters: with `safe`, over
/// the 65 characters `0-9 A-Z [ ] a-z {` with markers `}`, `~`, `|` for
/// values from 65, 130 and 195 on; otherwise over `"!#$...{|` with markers
/// `}` and `~` for values from 91 and 182 on.
pub fn encode_bytes_to_ascii_string(bytes: &[u8], safe: bool) -> (r: String)
    ensures
        r@ == spec_encode_bytes(bytes@, safe),
{
    let mut r = String::new();
    let mut i: usize = 0;
    while i < bytes.len()
        invariant
            i <= bytes@.len(),
            r@ == spec_encode_bytes(bytes@.take(i as int), safe),
        decreases bytes@.len() - i,
    {
        proof {
            lemma_encode_bytes_push(bytes@.take(i as int), bytes@[i as int], safe);
            assert(bytes@.take(i + 1) =~= bytes@.take(i as int).push(bytes@[i as int]));
        }
        push_encoded_byte(&mut r, bytes[i], safe);
        i = i + 1;
    }
    assert(bytes@.take(bytes@.len() as int) =~= bytes@);
    r
}

proof fn lemma_safe_char_injective(x: int, y: int)
    requires
        0 <= x < 68,
        0 <= y < 68,
        ascii_safe_char(x) == ascii_safe_char(y),
    ensures
        x == y,
{
}

proof fn lemma_encode_byte_prefix_free(x: u8, y: u8, r1: Seq<char>, r2: Seq<char>, safe: bool)
    requires
        spec_encode_byte(x, safe) + r1 == spec_encode_byte(y, safe) + r2,
    ensures
        x == y,
        r1 == r2,
{
    let e = spec_encode_byte(x, safe);
    let f = spec_encode_byte(y, safe);
    let l = e + r1;
    let m = f + r2;
    assert(l[0] == m[0]);
    assert(l[0] == e[0] && m[0] == f[0]);
    if e.len() == 2 && f.len() == 2 {
        assert(l[1] == e[1] && m[1] == f[1]);
    }
    assert(e.len() == f.len());
    assert(x == y);
    assert(r1 =~= l.skip(e.len() as int));
    assert(r2 =~= m.skip(f.len() as int));
}

/// Distinct byte strings have distinct encodings, so the payload of a
/// metadata URI can be read back.
pub proof fn lemma_encode_bytes_injective(a: Seq<u8>, b: Seq<u8>, safe: bool)
    requires
        spec_encode_bytes(a, safe) == spec_encode_bytes(b, safe),
    ensures
        a == b,
    decreases a.len(),
{
    if a.len() == 0 {
        if b.len() != 0 {
            assert(spec_encode_bytes(b, safe).len() > 0);
        }
        assert(a =~= b);
    } else {
        if b.len() == 0 {
            assert(spec_encode_bytes(a, safe).len() > 0);
        }
        lemma_encode_byte_prefix_free(
            a[0],
            b[0],
            spec_encode_bytes(a.drop_first(), safe),
            spec_encode_bytes(b.drop_first(), safe),
            safe,
        );
        lemma_encode_bytes_injective(a.drop_first(), b.drop_first(), safe);
        assert(a =~= seq![a[0]] + a.drop_first());
        assert(b =~= seq![b[0]] + b.drop_first());
    }
}

/// Distinct numbers have distinct encodings (in either alphabet).
pub proof fn lemma_encode_u64_injective(a: nat, b: nat, safe: bool)
    requires
        spec_encode_u64(a, safe) == spec_encode_u64(b, safe),
    ensures
        a == b,
    decreases a,
{
    let base: nat = if safe { 68 } else { 94 };
    if a == 0 || b == 0 {
        if a != 0 {
            assert(spec_encode_u64(a, safe).len() > 0);
        }
        if b != 0 {
            assert(spec_encode_u64(b, safe).len() > 0);
        }
    } else {
        let ea = spec_encode_u64(a, safe);
        let eb = spec_encode_u64(b, safe);
        assert(ea.last() == eb.last());
        let da = (a % base) as int;
        let db = (b % base) as int;
        if safe {
            lemma_safe_char_injective(da, db);
        }
        assert(da == db);
        assert(spec_encode_u64(a / base, safe) =~= ea.drop_last());
        assert(spec_encode_u64(b / base, safe) =~= eb.drop_last());
        lemma_encode_u64_injective(a / base, b / base, safe);
        lemma_fundamental_div_mod(a as int, base as int);
        lemma_fundamental_div_mod(b as int, base as int);
    }
}

/// Whether `c` is in the URL-safe alphabet `0-9 A-Z [ ] a-z { | } ~`.
pub open spec fn is_safe_char(c: char) -> bool {
    let x = c as u32;
    (48 <= x <= 57) || (65 <= x <= 91) || x == 93 || (97 <= x <= 126)
}

/// Whether `c` is a printable ASCII character other than space: `!` ..= `~`.
pub open spec fn is_printable_char(c: char) -> bool {
    33 <= c as u32 <= 126
}

/// Whether `c` is in the alphabet an encoding of bytes writes in: the
/// URL-safe one with `safe`, else the printable one.
pub open spec fn in_byte_alphabet(c: char, safe: bool) -> bool {
    if safe {
        is_safe_char(c)
    } else {
        is_printable_char(c)
    }
}

/// Whether every character of `s` is in the alphabet of byte encodings.
pub open spec fn all_in_byte_alphabet(s: Seq<char>, safe: bool) -> bool {
    forall|i: int| 0 <= i < s.len() ==> #[trigger] in_byte_alphabet(s[i], safe)
}

/// Whether every character of `s` is printable (see [`is_printable_char`]).
pub open spec fn all_printable(s: Seq<char>) -> bool {
    forall|i: int| 0 <= i < s.len() ==> #[trigger] is_printable_char(s[i])
}

proof fn lemma_encode_byte_shape(b: u8, safe: bool)
    ensures
        1 <= spec_encode_byte(b, safe).len() <= 2,
        all_in_byte_alphabet(spec_encode_byte(b, safe), safe),
{
    let e = spec_encode_byte(b, safe);
    assert forall|i: int| 0 <= i < e.len() implies #[trigger] in_byte_alphabet(e[i], safe) by {}
}

/// Encoding bytes is compositional: the encoding of two byte strings laid
/// end to end is their encodings laid end to end.
pub proof fn lemma_encode_bytes_concat(a: Seq<u8>, b: Seq<u8>, safe: bool)
    ensures
        spec_encode_bytes(a + b, safe) == spec_encode_bytes(a, safe) + spec_encode_bytes(b, safe),
    decreases a.len(),
{
    if a.len() == 0 {
        assert(a + b =~= b);
        assert(spec_encode_bytes(a, safe) =~= Seq::<char>::empty());
        assert(spec_encode_bytes(a, safe) + spec_encode_bytes(b, safe) =~= spec_encode_bytes(b, safe));
    } else {
        assert((a + b)[0] == a[0]);
        assert((a + b).drop_first() =~= a.drop_first() + b);
        lemma_encode_bytes_concat(a.drop_first(), b, safe);
        assert(spec_encode_bytes(a + b, safe) =~= spec_encode_bytes(a, safe) + spec_encode_bytes(b, safe));
    }
}

/// An encoding of bytes takes one or two characters per byte, all from its
/// alphabet (see [`in_byte_alphabet`]).
pub proof fn lemma_encode_bytes_shape(a: Seq<u8>, safe: bool)
    ensures
        a.len() <= spec_encode_bytes(a, safe).len() <= 2 * a.len(),
        all_in_byte_alphabet(spec_encode_bytes(a, safe), safe),
    decreases a.len(),
{
    if a.len() > 0 {
        lemma_encode_bytes_shape(a.drop_first(), safe);
        lemma_encode_byte_shape(a[0], safe);
        let e = spec_encode_byte(a[0], safe);
        let r = spec_encode_bytes(a.drop_first(), safe);
        assert forall|i: int| 0 <= i < (e + r).len() implies #[trigger] in_byte_alphabet((e + r)[i], safe) by {
            if i < e.len() {
                assert((e + r)[i] == e[i]);
            } else {
                assert((e + r)[i] == r[i - e.len()]);
            }
        }
    }
}

/// The number a base-94 string over `!` ..= `~` stands for, most
/// significant digit first: each character counts its code minus 33.
pub open spec fn decode_u64(s: Seq<char>) -> int
    decreases s.len(),
{
    if s.len() == 0 {
        0
    } else {
        decode_u64(s.drop_last()) * 94 + (s.last() as u32 - 33)
    }
}

/// The base-94 encoding of a number is made of characters `!` ..= `~`,
/// stands for the number, is empty only for zero, and otherwise does not
/// start with the zero digit `!`.
pub proof fn lemma_encode_u64_value(v: nat)
    ensures
        all_printable(spec_encode_u64(v, false)),
        decode_u64(spec_encode_u64(v, false)) == v,
        spec_encode_u64(v, false).len() == 0 <==> v == 0,
        v > 0 ==> spec_encode_u64(v, false)[0] != '!',
    decreases v,
{
    if v > 0 {
        let q = v / 94;
        let d = (v % 94) as int;
        lemma_encode_u64_value(q);
        lemma_fundamental_div_mod(v as int, 94);
        let e = spec_encode_u64(q, false);
        let f = e.push(ascii_string_char(d));
        assert(f.drop_last() =~= e);
        assert(ascii_string_char(d) as u32 == 33 + d);
        assert forall|i: int| 0 <= i < f.len() implies #[trigger] is_printable_char(f[i]) by {
            if i < e.len() {
                assert(f[i] == e[i]);
            }
        }
        if q == 0 {
            assert(d != 0);
            assert(f[0] == ascii_string_char(d));
        } else {
            assert(f[0] == e[0]);
        }
    }
}

/// The digits of a base-94 encoding, each its code minus 33.
pub open spec fn digit_of(c: char) -> int {
    c as u32 - 33
}

/// Whether `a` comes before `b` in dictionary order of character codes.
pub open spec fn lex_less(a: Seq<char>, b: Seq<char>) -> bool {
    exists|i: int|
        0 <= i < a.len() && i < b.len() && a.take(i) == b.take(i) && (a[i] as u32) < (b[i] as u32)
}

proof fn lemma_decode_bound(s: Seq<char>)
    requires
        all_printable(s),
    ensures
        0 <= decode_u64(s) < pow94(s.len()),
    decreases s.len(),
{
    if s.len() > 0 {
        let t = s.drop_last();
        assert(all_printable(t)) by {
            assert forall|i: int| 0 <= i < t.len() implies #[trigger] is_printable_char(t[i]) by {
                assert(t[i] == s[i]);
                assert(is_printable_char(s[i]));
            }
        }
        lemma_decode_bound(t);
        assert(is_printable_char(s[s.len() - 1]));
        let x = decode_u64(t);
        let p = pow94(t.len());
        assert(x * 94 + 93 < p * 94) by (nonlinear_arith)
            requires
                0 <= x < p,
        ;
        assert(x * 94 >= 0) by (nonlinear_arith)
            requires
                0 <= x,
        ;
    }
}

/// 94 to the power `n`.
pub open spec fn pow94(n: nat) -> int
    decreases n,
{
    if n == 0 {
        1
    } else {
        pow94((n - 1) as nat) * 94
    }
}

proof fn lemma_char_code(c1: char, c2: char)
    requires
        c1 as u32 == c2 as u32,
    ensures
        c1 == c2,
{
}

proof fn lemma_pow94_mono(n: nat, m: nat)
    requires
        n <= m,
    ensures
        1 <= pow94(n) <= pow94(m),
    decreases m,
{
    if m > 0 {
        if n < m {
            lemma_pow94_mono(n, (m - 1) as nat);
        } else {
            lemma_pow94_mono((n - 1) as nat, (m - 1) as nat);
        }
        lemma_pow94_mono(0, (m - 1) as nat);
    }
}

proof fn lemma_drop_last_printable(s: Seq<char>)
    requires
        all_printable(s),
        s.len() > 0,
    ensures
        all_printable(s.drop_last()),
        is_printable_char(s[s.len() - 1]),
{
    let t = s.drop_last();
    assert forall|i: int| 0 <= i < t.len() implies #[trigger] is_printable_char(t[i]) by {
        assert(t[i] == s[i]);
        assert(is_printable_char(s[i]));
    }
    assert(is_printable_char(s[s.len() - 1]));
}

proof fn lemma_decode_lower(s: Seq<char>)
    requires
        all_printable(s),
        s.len() > 0,
        s[0] != '!',
    ensures
        decode_u64(s) >= pow94((s.len() - 1) as nat),
    decreases s.len(),
{
    lemma_drop_last_printable(s);
    let t = s.drop_last();
    if s.len() == 1 {
        assert(decode_u64(t) == 0);
        assert(s.last() == s[0]);
        if s[0] as u32 == 33 {
            lemma_char_code(s[0], '!');
        }
    } else {
        assert(t[0] == s[0]);
        lemma_decode_lower(t);
        lemma_decode_bound(t);
        let x = decode_u64(t);
        let p = pow94((t.len() - 1) as nat);
        assert(x * 94 >= p * 94) by (nonlinear_arith)
            requires
                x >= p,
        ;
    }
}

proof fn lemma_decode_order(s: Seq<char>, t: Seq<char>)
    requires
        all_printable(s),
        all_printable(t),
        s.len() == t.len(),
    ensures
        decode_u64(s) < decode_u64(t) ==> lex_less(s, t),
        decode_u64(s) == decode_u64(t) ==> s == t,
    decreases s.len(),
{
    let n = s.len();
    if n == 0 {
        assert(s =~= t);
    } else {
        lemma_drop_last_printable(s);
        lemma_drop_last_printable(t);
        let s1 = s.drop_last();
        let t1 = t.drop_last();
        lemma_decode_order(s1, t1);
        lemma_decode_bound(s1);
        lemma_decode_bound(t1);
        let x = decode_u64(s1);
        let y = decode_u64(t1);
        let a = s.last() as u32 - 33;
        let b = t.last() as u32 - 33;
        assert(0 <= a <= 93 && 0 <= b <= 93);
        if x < y {
            assert(x * 94 + a < y * 94 + b) by (nonlinear_arith)
                requires
                    x < y,
                    0 <= a <= 93,
                    0 <= b <= 93,
            ;
            let i = choose|i: int|
                0 <= i < s1.len() && i < t1.len() && s1.take(i) == t1.take(i) && (s1[i] as u32) < (t1[i] as u32);
            assert(s.take(i) =~= s1.take(i));
            assert(t.take(i) =~= t1.take(i));
            assert(s[i] == s1[i] && t[i] == t1[i]);
            assert(lex_less(s, t));
        } else if x > y {
            assert(x * 94 + a > y * 94 + b) by (nonlinear_arith)
                requires
                    x > y,
                    0 <= a <= 93,
                    0 <= b <= 93,
            ;
        } else {
            assert(s1 == t1);
            if a < b {
                assert(s.take(n - 1) =~= s1);
                assert(t.take(n - 1) =~= t1);
                assert(lex_less(s, t));
            }
            if a == b {
                lemma_char_code(s.last(), t.last());
                assert(s =~= s1.push(s.last()));
                assert(t =~= t1.push(t.last()));
            }
        }
    }
}

/// The base-94 encoding keeps the order of numbers: a smaller number has a
/// shorter encoding, or one as long that comes first in dictionary order.
pub proof fn lemma_encode_u64_order(v1: nat, v2: nat)
    requires
        v1 < v2,
    ensures
        ({
            let s1 = spec_encode_u64(v1, false);
            let s2 = spec_encode_u64(v2, false);
            s1.len() < s2.len() || (s1.len() == s2.len() && lex_less(s1, s2))
        }),
{
    let s1 = spec_encode_u64(v1, false);
    let s2 = spec_encode_u64(v2, false);
    lemma_encode_u64_value(v1);
    lemma_encode_u64_value(v2);
    if v1 > 0 {
        lemma_decode_lower(s1);
        lemma_decode_bound(s1);
        lemma_decode_lower(s2);
        lemma_decode_bound(s2);
        if s1.len() > s2.len() {
            lemma_pow94_mono(s2.len(), (s1.len() - 1) as nat);
        }
        if s1.len() == s2.len() {
            lemma_decode_order(s1, s2);
        }
    }
}

/// The bytes of `bytes` before its first zero byte (all of them when there
/// is none).
pub open spec fn until_first_zero(bytes: Seq<u8>) -> Seq<u8> {
    if exists|i: int| 0 <= i < bytes.len() && bytes[i] == 0 {
        bytes.take(
            choose|i: int| 0 <= i < bytes.len() && bytes[i] == 0 && (forall|j: int| 0 <= j < i ==> bytes[j] != 0),
        )
    } else {
        bytes
    }
}

/// The text of a zero-terminated byte field: the bytes before the first zero,
/// decoded as UTF-8 with invalid sequences replaced.
pub fn bytes_to_string(bytes: &[u8]) -> (r: String)
    ensures
        r@ == spec_utf8_lossy(until_first_zero(bytes@)),
        valid_utf8(until_first_zero(bytes@)) ==> r@ == decode_utf8(until_first_zero(bytes@)),
{
    let mut prefix: Vec<u8> = Vec::new();
    let mut i: usize = 0;
    while i < bytes.len() && bytes[i] != 0
        invariant
            i <= bytes@.len(),
            prefix@ =~= bytes@.take(i as int),
            forall|j: int| 0 <= j < i ==> bytes@[j] != 0,
        decreases bytes@.len() - i,
    {
        prefix.push(bytes[i]);
        i = i + 1;
    }
    proof {
        if i < bytes@.len() {
            assert(bytes@[i as int] == 0);
            let k = choose|k: int|
                0 <= k < bytes@.len() && bytes@[k] == 0 && (forall|j: int| 0 <= j < k ==> bytes@[j] != 0);
            assert(k == i as int);
        } else {
            assert(bytes@.take(i as int) =~= bytes@);
        }
    }
    utf8_lossy(prefix.as_slice())
}

} // verus!

//! Wide (UTF-16) strings as the Windows API hands them out.

use vstd::prelude::*;

verus! {

/// A leading (high) surrogate.
pub open spec fn is_high_surrogate(u: u16) -> bool {
    0xD800 <= u && u < 0xDC00
}

/// A trailing (low) surrogate.
pub open spec fn is_low_surrogate(u: u16) -> bool {
    0xDC00 <= u && u < 0xE000
}

/// Lossy UTF-16 decoding: a leading surrogate followed by a trailing one is
/// one character, any other surrogate becomes U+FFFD, and every other unit is
/// the character of its value.
pub open spec fn utf16_lossy(u: Seq<u16>) -> Seq<char>
    decreases u.len(),
{
    if u.len() == 0 {
        Seq::empty()
    } else if u.len() >= 2 && is_high_surrogate(u[0]) && is_low_surrogate(u[1]) {
        seq![((0x10000 + (u[0] - 0xD800) * 0x400 + (u[1] - 0xDC00)) as u32) as char]
            + utf16_lossy(u.subrange(2, u.len() as int))
    } else if is_high_surrogate(u[0]) || is_low_surrogate(u[0]) {
        seq!['\u{FFFD}'] + utf16_lossy(u.drop_first())
    } else {
        seq![(u[0] as u32) as char] + utf16_lossy(u.drop_first())
    }
}

/// The UTF-16 units of one character: itself below U+10000, else a surrogate pair.
pub open spec fn char_units(c: char) -> Seq<u16> {
    let v = c as u32;
    if v < 0x10000 {
        seq![v as u16]
    } else {
        seq![(0xD800 + (v - 0x10000) / 0x400) as u16, (0xDC00 + (v - 0x10000) % 0x400) as u16]
    }
}

/// The UTF-16 encoding of a string.
pub open spec fn utf16_of(s: Seq<char>) -> Seq<u16>
    decreases s.len(),
{
    if s.len() == 0 {
        Seq::empty()
    } else {
        char_units(s[0]) + utf16_of(s.drop_first())
    }
}

/// The number of units before the first NUL unit of `s` (all of them when there is none).
pub open spec fn wide_len(s: Seq<u16>) -> nat
    decreases s.len(),
{
    if s.len() == 0 {
        0
    } else if s[0] == 0 {
        0
    } else {
        1 + wide_len(s.drop_first())
    }
}

/// The units of a NUL terminated wide string, without the terminator.
pub open spec fn wide_prefix(s: Seq<u16>) -> Seq<u16> {
    s.take(wide_len(s) as int)
}

/// Little-endian pairs of bytes read as UTF-16 units; an odd last byte is ignored.
pub open spec fn le_units(b: Seq<u8>) -> Seq<u16> {
    Seq::new(b.len() / 2, |i: int| (b[2 * i] + 256 * b[2 * i + 1]) as u16)
}

proof fn lemma_wide_len(s: Seq<u16>, k: int)
    requires
        0 <= k <= s.len(),
        forall|i: int| 0 <= i < k ==> s[i] != 0,
        k == s.len() || s[k] == 0,
    ensures
        wide_len(s) == k,
    decreases k,
{
    if k > 0 {
        assert(s[0] != 0);
        let t = s.drop_first();
        assert forall|i: int| 0 <= i < k - 1 implies t[i] != 0 by {
            assert(t[i] == s[i + 1]);
        }
        if k - 1 < t.len() {
            assert(t[k - 1] == s[k]);
        }
        lemma_wide_len(t, k - 1);
    }
}

/// Relies on `String::from_utf16_lossy`: decodes the units, replacing
/// unpaired surrogates with U+FFFD.
#[verifier::external_body]
fn decode_utf16_lossy(units: &[u16]) -> (r: String)
    ensures
        r@ == utf16_lossy(units@),
{
    String::from_utf16_lossy(units)
}

/// Relies on `str::encode_utf16`: the UTF-16 encoding of the string.
#[verifier::external_body]
fn encode_utf16(s: &str) -> (r: Vec<u16>)
    ensures
        r@ == utf16_of(s@),
{
    s.encode_utf16().collect()
}

/// Decodes a NUL terminated wide string; units after the first NUL are not read.
pub fn from_wide(s: &[u16]) -> (r: String)
    ensures
        r@ == utf16_lossy(wide_prefix(s@)),
{
    let mut units: Vec<u16> = Vec::new();
    let mut i: usize = 0;
    while i < s.len() && s[i] != 0
        invariant
            0 <= i <= s.len(),
            units@ == s@.take(i as int),
            forall|j: int| 0 <= j < i ==> s@[j] != 0,
        decreases s.len() - i,
    {
        units.push(s[i]);
        i = i + 1;
        assert(units@ =~= s@.take(i as int));
    }
    proof {
        lemma_wide_len(s@, i as int);
    }
    decode_utf16_lossy(units.as_slice())
}

/// Pairs little-endian bytes into UTF-16 units; an odd last byte is ignored.
pub fn le_bytes_to_wide(b: &[u8]) -> (r: Vec<u16>)
    ensures
        r@ == le_units(b@),
{
    let mut r: Vec<u16> = Vec::new();
    let n: usize = b.len() / 2;
    let mut i: usize = 0;
    while i < n
        invariant
            n == b.len() / 2,
            0 <= i <= n,
            r@ =~= le_units(b@).take(i as int),
        decreases n - i,
    {
        let lo: u16 = b[2 * i] as u16;
        let hi: u16 = b[2 * i + 1] as u16;
        assert(hi * 256 <= 65280) by (nonlinear_arith)
            requires
                hi < 256,
        ;
        r.push(lo + hi * 256);
        i = i + 1;
        assert(r@ =~= le_units(b@).take(i as int));
    }
    r
}

/// Decodes a NUL terminated wide string held as little-endian bytes, the form in
/// which the registry returns string values.
pub fn from_wide_bytes(b: &[u8]) -> (r: String)
    ensures
        r@ == utf16_lossy(wide_prefix(le_units(b@))),
{
    let units = le_bytes_to_wide(b);
    from_wide(units.as_slice())
}

/// Encodes a string as a NUL terminated wide string.
pub fn to_wide(s: &str) -> (r: Vec<u16>)
    ensures
        r@ == utf16_of(s@).push(0),
{
    let mut r = encode_utf16(s);
    r.push(0);
    r
}

} // verus!

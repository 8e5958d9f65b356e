//! Shared field parsers: calendar fields with their wire sentinels, 6-bit
//! ASCII text, and small helpers used by every message decoder.
use crate::bits::{bits_u, take_u};
use crate::errors::Error;
use vstd::prelude::*;

verus! {

/// Wire year, 14 bits: 0 means "not available".
pub open spec fn spec_year(v: nat) -> Option<u16>
    recommends
        v < 16384,
{
    if v == 0 {
        None
    } else {
        Some(v as u16)
    }
}

/// Wire month, 4 bits: 0 means "not available".
pub open spec fn spec_month(v: nat) -> Option<u8>
    recommends
        v < 16,
{
    if v == 0 {
        None
    } else {
        Some(v as u8)
    }
}

/// Wire day, 5 bits: 0 means "not available".
pub open spec fn spec_day(v: nat) -> Option<u8>
    recommends
        v < 32,
{
    if v == 0 {
        None
    } else {
        Some(v as u8)
    }
}

/// Wire minute or second, 6 bits: 60 means "not available".
pub open spec fn spec_minsec(v: nat) -> Option<u8>
    recommends
        v < 64,
{
    if v == 60 {
        None
    } else {
        Some(v as u8)
    }
}

/// Reads a 14-bit year; the wire sentinel 0 decodes to `None`.
pub fn parse_year(data: &[u8], pos: usize) -> (r: Result<(usize, Option<u16>), Error>)
    requires
        data@.len() * 8 <= usize::MAX,
    ensures
        r is Ok <==> pos + 14 <= data@.len() * 8,
        r matches Ok(p) ==> p.0 == pos + 14 && p.1 == spec_year(bits_u(data@, pos as int, 14)),
        r is Err ==> r == Err::<(usize, Option<u16>), Error>(Error::UnexpectedEnd),
{
    let (np, v) = take_u(data, pos, 14)?;
    proof {
        crate::bits::lemma_bits_u_bound(data@, pos as int, 14);
        vstd::arithmetic::power2::lemma2_to64();
    }
    Ok((np, if v == 0 {
        None
    } else {
        Some(v as u16)
    }))
}

/// Reads a 4-bit month; the wire sentinel 0 decodes to `None`.
pub fn parse_month(data: &[u8], pos: usize) -> (r: Result<(usize, Option<u8>), Error>)
    requires
        data@.len() * 8 <= usize::MAX,
    ensures
        r is Ok <==> pos + 4 <= data@.len() * 8,
        r matches Ok(p) ==> p.0 == pos + 4 && p.1 == spec_month(bits_u(data@, pos as int, 4)),
        r is Err ==> r == Err::<(usize, Option<u8>), Error>(Error::UnexpectedEnd),
{
    let (np, v) = take_u(data, pos, 4)?;
    proof {
        crate::bits::lemma_bits_u_bound(data@, pos as int, 4);
        vstd::arithmetic::power2::lemma2_to64();
    }
    Ok((np, if v == 0 {
        None
    } else {
        Some(v as u8)
    }))
}

/// Reads a 5-bit day; the wire sentinel 0 decodes to `None`.
pub fn parse_day(data: &[u8], pos: usize) -> (r: Result<(usize, Option<u8>), Error>)
    requires
        data@.len() * 8 <= usize::MAX,
    ensures
        r is Ok <==> pos + 5 <= data@.len() * 8,
        r matches Ok(p) ==> p.0 == pos + 5 && p.1 == spec_day(bits_u(data@, pos as int, 5)),
        r is Err ==> r == Err::<(usize, Option<u8>), Error>(Error::UnexpectedEnd),
{
    let (np, v) = take_u(data, pos, 5)?;
    proof {
        crate::bits::lemma_bits_u_bound(data@, pos as int, 5);
        vstd::arithmetic::power2::lemma2_to64();
    }
    Ok((np, if v == 0 {
        None
    } else {
        Some(v as u8)
    }))
}

/// Reads a 5-bit hour. The value is kept raw: 24 is the wire marker for
/// "not available" and stays visible to the caller.
pub fn parse_hour(data: &[u8], pos: usize) -> (r: Result<(usize, u8), Error>)
    requires
        data@.len() * 8 <= usize::MAX,
    ensures
        r is Ok <==> pos + 5 <= data@.len() * 8,
        r matches Ok(p) ==> p.0 == pos + 5 && p.1 == bits_u(data@, pos as int, 5),
        r is Err ==> r == Err::<(usize, u8), Error>(Error::UnexpectedEnd),
{
    let (np, v) = take_u(data, pos, 5)?;
    proof {
        crate::bits::lemma_bits_u_bound(data@, pos as int, 5);
        vstd::arithmetic::power2::lemma2_to64();
    }
    Ok((np, v as u8))
}

/// Reads a 6-bit minute or second; the wire sentinel 60 decodes to `None`.
pub fn parse_minsec(data: &[u8], pos: usize) -> (r: Result<(usize, Option<u8>), Error>)
    requires
        data@.len() * 8 <= usize::MAX,
    ensures
        r is Ok <==> pos + 6 <= data@.len() * 8,
        r matches Ok(p) ==> p.0 == pos + 6 && p.1 == spec_minsec(bits_u(data@, pos as int, 6)),
        r is Err ==> r == Err::<(usize, Option<u8>), Error>(Error::UnexpectedEnd),
{
    let (np, v) = take_u(data, pos, 6)?;
    proof {
        crate::bits::lemma_bits_u_bound(data@, pos as int, 6);
        vstd::arithmetic::power2::lemma2_to64();
    }
    Ok((np, if v == 60 {
        None
    } else {
        Some(v as u8)
    }))
}

/// Number of bits still readable at cursor `pos`.
pub fn remaining_bits(data: &[u8], pos: usize) -> (r: usize)
    requires
        data@.len() * 8 <= usize::MAX,
    ensures
        r == if pos <= data@.len() * 8 {
            data@.len() * 8 - pos
        } else {
            0
        },
{
    crate::bits::remaining_bits(data, pos)
}

/// Converts a single wire bit to a boolean: `0` is `false`, `1` is `true`.
pub fn u8_to_bool(data: u8) -> (r: bool)
    requires
        data <= 1,
    ensures
        r == (data == 1),
{
    data == 1
}

/// Reads the 6-bit message type from the first byte of a bitstream.
pub fn message_type(data: &[u8]) -> (r: Result<u8, Error>)
    requires
        data@.len() * 8 <= usize::MAX,
    ensures
        r is Ok <==> data@.len() >= 1,
        r matches Ok(t) ==> t == bits_u(data@, 0, 6),
        r is Err ==> r == Err::<u8, Error>(Error::UnexpectedEnd),
{
    let v = crate::bits::peek_u(data, 0, 6)?;
    proof {
        crate::bits::lemma_bits_u_bound(data@, 0, 6);
        vstd::arithmetic::power2::lemma2_to64();
    }
    Ok(v as u8)
}

/// The ASCII code of a 6-bit text value: values below 32 shift up into the
/// `@A.._` range, the rest map to themselves.
pub open spec fn sixbit_code(v: nat) -> u8
    recommends
        v < 64,
{
    if v < 32 {
        (v + 64) as u8
    } else {
        (v % 64) as u8
    }
}

/// The ASCII codes of the `count` 6-bit characters starting at bit `pos`.
pub open spec fn raw_codes(d: Seq<u8>, pos: int, count: nat) -> Seq<u8> {
    Seq::new(count, |i: int| sixbit_code(bits_u(d, pos + 6 * i, 6)))
}

/// How many leading bytes of `s` equal `c`.
pub open spec fn count_leading(s: Seq<u8>, c: u8) -> nat
    decreases s.len(),
{
    if s.len() == 0 || s[0] != c {
        0
    } else {
        1 + count_leading(s.subrange(1, s.len() as int), c)
    }
}

/// How many trailing bytes of `s` equal `c`.
pub open spec fn count_trailing(s: Seq<u8>, c: u8) -> nat
    decreases s.len(),
{
    if s.len() == 0 || s[s.len() - 1] != c {
        0
    } else {
        1 + count_trailing(s.subrange(0, s.len() - 1), c)
    }
}

/// The text-trimming rule: leading spaces go first, then trailing `@`
/// padding, then trailing spaces.
pub open spec fn trim_codes(s: Seq<u8>) -> Seq<u8> {
    let a = s.skip(count_leading(s, 32) as int);
    let b = a.take(a.len() - count_trailing(a, 64));
    b.take(b.len() - count_trailing(b, 32))
}

/// A byte sequence seen as characters, one per byte.
pub open spec fn chars_of(s: Seq<u8>) -> Seq<char> {
    Seq::new(s.len(), |i: int| s[i] as char)
}

/// The decoded and trimmed text of the `6·count` bits starting at `pos`.
pub open spec fn sixbit_text(d: Seq<u8>, pos: int, count: nat) -> Seq<char> {
    chars_of(trim_codes(raw_codes(d, pos, count)))
}

/// `count_leading(s, c)` marks the first position where `s` stops being `c`.
pub proof fn lemma_count_leading(s: Seq<u8>, c: u8)
    ensures
        count_leading(s, c) <= s.len(),
        forall|i: int| 0 <= i < count_leading(s, c) ==> s[i] == c,
        count_leading(s, c) < s.len() ==> s[count_leading(s, c) as int] != c,
    decreases s.len(),
{
    if s.len() == 0 || s[0] != c {
    } else {
        let t = s.subrange(1, s.len() as int);
        lemma_count_leading(t, c);
        assert forall|i: int| 0 <= i < count_leading(s, c) implies s[i] == c by {
            if i > 0 {
                assert(t[i - 1] == c);
            }
        }
    }
}

/// `count_trailing(s, c)` marks how far the trailing run of `c` reaches.
pub proof fn lemma_count_trailing(s: Seq<u8>, c: u8)
    ensures
        count_trailing(s, c) <= s.len(),
        forall|i: int| s.len() - count_trailing(s, c) <= i < s.len() ==> s[i] == c,
        count_trailing(s, c) < s.len() ==> s[s.len() - count_trailing(s, c) - 1] != c,
    decreases s.len(),
{
    if s.len() == 0 || s[s.len() - 1] != c {
    } else {
        let t = s.subrange(0, s.len() - 1);
        lemma_count_trailing(t, c);
        assert forall|i: int| s.len() - count_trailing(s, c) <= i < s.len() implies s[i] == c by {
            if i < s.len() - 1 {
                assert(t[i] == c);
            }
        }
    }
}

/// Trimmed text never starts with a space and never ends with a space.
pub proof fn lemma_trim_codes(s: Seq<u8>)
    ensures
        trim_codes(s).len() > 0 ==> trim_codes(s)[0] != 32,
        trim_codes(s).len() > 0 ==> trim_codes(s)[trim_codes(s).len() - 1] != 32,
{
    let cl = count_leading(s, 32) as int;
    let a = s.skip(cl);
    let c64 = count_trailing(a, 64) as int;
    let b = a.take(a.len() - c64);
    let c32 = count_trailing(b, 32) as int;
    let t = b.take(b.len() - c32);
    lemma_count_leading(s, 32);
    lemma_count_trailing(a, 64);
    lemma_count_trailing(b, 32);
    if t.len() > 0 {
        assert(t[0] == a[0]);
        assert(a[0] == s[cl]);
        assert(t[t.len() - 1] == b[b.len() - c32 - 1]);
        if c32 < b.len() {
            assert(b[b.len() - c32 - 1] != 32);
        }
    }
}

/// When no space follows an `@` in the raw codes, as is the case for the
/// terminal `@` padding of the wire format, trimmed text never ends with
/// an `@` either.
pub proof fn lemma_trim_codes_no_padding(s: Seq<u8>)
    requires
        forall|i: int, j: int| 0 <= i < j < s.len() && s[i] == 64 ==> s[j] != 32,
    ensures
        trim_codes(s).len() > 0 ==> trim_codes(s)[trim_codes(s).len() - 1] != 64,
{
    let cl = count_leading(s, 32) as int;
    let a = s.skip(cl);
    let c64 = count_trailing(a, 64) as int;
    let b = a.take(a.len() - c64);
    let c32 = count_trailing(b, 32) as int;
    let t = b.take(b.len() - c32);
    lemma_count_leading(s, 32);
    lemma_count_trailing(a, 64);
    lemma_count_trailing(b, 32);
    if t.len() > 0 {
        let last = b.len() - c32 - 1;
        assert(t[t.len() - 1] == b[last]);
        if c32 == 0 {
            assert(c64 < a.len());
            assert(b[b.len() - 1] == a[a.len() - c64 - 1]);
        } else {
            if b[last] == 64 {
                assert(b[b.len() - 1] == 32);
                assert(b[last] == s[cl + last]);
                assert(b[b.len() - 1] == s[cl + b.len() - 1]);
                assert(s[cl + last] == 64 && s[cl + b.len() - 1] == 32 && cl + last < cl + b.len()
                    - 1 < s.len());
                assert(false);
            }
        }
    }
}

/// Decoded 6-bit text has no leading spaces and no trailing spaces; when
/// no space follows an `@` in the raw characters it has no trailing `@`
/// either.
pub proof fn lemma_text_trimming(d: Seq<u8>, pos: int, count: nat)
    ensures
        sixbit_text(d, pos, count).len() > 0 ==> sixbit_text(d, pos, count)[0] != ' ',
        sixbit_text(d, pos, count).len() > 0 ==> sixbit_text(d, pos, count)[sixbit_text(
            d,
            pos,
            count,
        ).len() - 1] != ' ',
        (forall|i: int, j: int|
            0 <= i < j < count && raw_codes(d, pos, count)[i] == 64 ==> raw_codes(d, pos, count)[j]
                != 32) ==> (sixbit_text(d, pos, count).len() > 0 ==> sixbit_text(d, pos, count)[
            sixbit_text(d, pos, count).len() - 1] != '@'),
{
    let s = raw_codes(d, pos, count);
    lemma_trim_codes(s);
    if forall|i: int, j: int| 0 <= i < j < s.len() && s[i] == 64 ==> s[j] != 32 {
        lemma_trim_codes_no_padding(s);
    }
    assert(32u8 as char == ' ');
    assert(64u8 as char == '@');
}

/// Relies on `String::from_utf8_lossy`: bytes below 128 are ASCII, hence
/// valid UTF-8, and decode one byte to one character of the same value.
#[verifier::external_body]
fn ascii_to_string(bytes: &[u8]) -> (r: String)
    requires
        forall|i: int| 0 <= i < bytes@.len() ==> bytes@[i] < 128,
    ensures
        r@.len() == bytes@.len(),
        forall|i: int| 0 <= i < bytes@.len() ==> r@[i] == bytes@[i] as char,
{
    String::from_utf8_lossy(bytes).into_owned()
}

/// Decodes `size / 6` six-bit characters starting at bit `pos` into a
/// string, mapping each value to printable ASCII and trimming leading
/// spaces, then trailing `@` padding, then trailing spaces.
pub fn parse_6bit_ascii(data: &[u8], pos: usize, size: usize) -> (r: Result<
    (usize, String),
    Error,
>)
    requires
        data@.len() * 8 <= usize::MAX,
    ensures
        r is Ok <==> pos + (size / 6) * 6 <= data@.len() * 8,
        r matches Ok(p) ==> p.0 == pos + (size / 6) * 6 && p.1@ == sixbit_text(
            data@,
            pos as int,
            (size / 6) as nat,
        ),
        r is Err ==> r == Err::<(usize, String), Error>(Error::UnexpectedEnd),
{
    let count = size / 6;
    let total = data.len() * 8;
    proof {
        assert(count * 6 <= size) by (nonlinear_arith)
            requires
                count == size / 6,
        ;
    }
    let c6 = count * 6;
    if pos > total || c6 > total - pos {
        return Err(Error::UnexpectedEnd);
    }
    let mut codes: Vec<u8> = Vec::new();
    let mut i: usize = 0;
    let mut cur: usize = pos;
    while i < count
        invariant
            i <= count,
            data@.len() * 8 <= usize::MAX,
            cur == pos + 6 * i,
            pos + count * 6 <= data@.len() * 8,
            codes@.len() == i,
            forall|t: int| 0 <= t < i ==> codes@[t] == raw_codes(data@, pos as int, count as nat)[t],
        decreases count - i,
    {
        proof {
            assert(pos + 6 * i + 6 <= pos + count * 6) by (nonlinear_arith)
                requires
                    i < count,
            ;
        }
        let (np, v) = take_u(data, cur, 6)?;
        proof {
            crate::bits::lemma_bits_u_bound(data@, cur as int, 6);
            vstd::arithmetic::power2::lemma2_to64();
        }
        let code: u8 = if v < 32 {
            (v + 64) as u8
        } else {
            v as u8
        };
        codes.push(code);
        cur = np;
        i = i + 1;
    }
    let ghost raw = raw_codes(data@, pos as int, count as nat);
    proof {
        assert(codes@ =~= raw);
    }
    let len = codes.len();
    let mut start: usize = 0;
    while start < len && codes[start] == 32
        invariant
            start <= len,
            len == codes@.len(),
            forall|t: int| 0 <= t < start ==> codes@[t] == 32,
        decreases len - start,
    {
        start = start + 1;
    }
    proof {
        lemma_count_leading(codes@, 32);
        assert(start == count_leading(codes@, 32)) by {
            let cl = count_leading(codes@, 32) as int;
            if start < cl {
                assert(codes@[start as int] == 32);
            }
            if cl < start {
                assert(codes@[cl] == 32);
            }
        }
    }
    let mut end: usize = len;
    while end > start && codes[end - 1] == 64
        invariant
            start <= end <= len,
            len == codes@.len(),
            forall|t: int| 0 <= t < start ==> codes@[t] == 32,
            forall|t: int| end <= t < len ==> codes@[t] == 64,
        decreases end,
    {
        end = end - 1;
    }
    let ghost a = codes@.skip(start as int);
    proof {
        lemma_count_trailing(a, 64);
        assert(end - start == a.len() - count_trailing(a, 64)) by {
            let ct = count_trailing(a, 64) as int;
            let e2 = a.len() - ct + start;
            assert forall|t: int| e2 <= t < len implies codes@[t] == 64 by {
                assert(a[t - start] == 64);
            }
            if end < e2 {
                assert(a[e2 - start - 1] == codes@[e2 - 1]);
            }
            if e2 < end {
                assert(codes@[end - 1] == a[end - 1 - start]);
            }
        }
    }
    let mut end2: usize = end;
    while end2 > start && codes[end2 - 1] == 32
        invariant
            start <= end2 <= end <= len,
            len == codes@.len(),
            forall|t: int| end2 <= t < end ==> codes@[t] == 32,
        decreases end2,
    {
        end2 = end2 - 1;
    }
    let ghost b = a.take(a.len() - count_trailing(a, 64));
    proof {
        lemma_count_trailing(b, 32);
        assert(b.len() == end - start);
        assert(forall|t: int| 0 <= t < b.len() ==> b[t] == codes@[t + start]);
        assert(end2 - start == b.len() - count_trailing(b, 32)) by {
            let ct = count_trailing(b, 32) as int;
            let e2 = b.len() - ct + start;
            if end2 < e2 {
                assert(b[e2 - start - 1] == 32);
                assert(codes@[e2 - 1] == 32);
            }
            if e2 < end2 {
                assert(codes@[end2 - 1] == b[end2 - 1 - start]);
            }
        }
    }
    proof {
        assert forall|t: int| 0 <= t < codes@.len() implies codes@[t] < 128 by {
            assert(codes@[t] == raw[t]);
        }
    }
    let out = ascii_to_string(&codes.as_slice()[start..end2]);
    proof {
        let tr = trim_codes(raw);
        assert(tr =~= codes@.subrange(start as int, end2 as int));
        assert(out@ =~= chars_of(tr));
    }
    Ok((cur, out))
}

} // verus!

//! NMEA 4.0 tag blocks: the optional `\k:v,...*HH\` metadata prefix.
use crate::errors::Error;
use vstd::prelude::*;
use vstd::string::StrSliceExecFns;
use vstd::string::StringSliceAdditionalSpecFns;
use vstd::utf8::encode_utf8;

verus! {

/// Last position strictly before `upto` where `s` holds `c`.
pub open spec fn ch_rfind(s: Seq<char>, upto: int, c: char) -> Option<int>
    decreases upto,
{
    if upto <= 0 || upto > s.len() {
        None
    } else if s[upto - 1] == c {
        Some(upto - 1)
    } else {
        ch_rfind(s, upto - 1, c)
    }
}

/// What `ch_rfind` returns: the last occurrence before `upto`.
pub proof fn lemma_ch_rfind(s: Seq<char>, upto: int, c: char)
    requires
        upto <= s.len(),
    ensures
        match ch_rfind(s, upto, c) {
            Some(j) => 0 <= j < upto && s[j] == c && forall|i: int| j < i < upto ==> s[i] != c,
            None => forall|i: int| 0 <= i < upto ==> s[i] != c,
        },
    decreases upto,
{
    if 0 < upto <= s.len() && s[upto - 1] != c {
        lemma_ch_rfind(s, upto - 1, c);
    }
}

/// How many leading characters of `s` equal `c`.
pub open spec fn ch_count_leading(s: Seq<char>, c: char) -> nat
    decreases s.len(),
{
    if s.len() == 0 || s[0] != c {
        0
    } else {
        1 + ch_count_leading(s.subrange(1, s.len() as int), c)
    }
}

/// How many trailing characters of `s` equal `c`.
pub open spec fn ch_count_trailing(s: Seq<char>, c: char) -> nat
    decreases s.len(),
{
    if s.len() == 0 || s[s.len() - 1] != c {
        0
    } else {
        1 + ch_count_trailing(s.subrange(0, s.len() - 1), c)
    }
}

/// `ch_count_leading` marks the first position where `s` stops being `c`.
pub proof fn lemma_ch_count_leading(s: Seq<char>, c: char)
    ensures
        ch_count_leading(s, c) <= s.len(),
        forall|i: int| 0 <= i < ch_count_leading(s, c) ==> s[i] == c,
        ch_count_leading(s, c) < s.len() ==> s[ch_count_leading(s, c) as int] != c,
    decreases s.len(),
{
    if s.len() == 0 || s[0] != c {
    } else {
        let t = s.subrange(1, s.len() as int);
        lemma_ch_count_leading(t, c);
        assert forall|i: int| 0 <= i < ch_count_leading(s, c) implies s[i] == c by {
            if i > 0 {
                assert(t[i - 1] == c);
            }
        }
    }
}

/// `ch_count_trailing` marks how far the trailing run of `c` reaches.
pub proof fn lemma_ch_count_trailing(s: Seq<char>, c: char)
    ensures
        ch_count_trailing(s, c) <= s.len(),
        forall|i: int| s.len() - ch_count_trailing(s, c) <= i < s.len() ==> s[i] == c,
        ch_count_trailing(s, c) < s.len() ==> s[s.len() - ch_count_trailing(s, c) - 1] != c,
    decreases s.len(),
{
    if s.len() == 0 || s[s.len() - 1] != c {
    } else {
        let t = s.subrange(0, s.len() - 1);
        lemma_ch_count_trailing(t, c);
        assert forall|i: int| s.len() - ch_count_trailing(s, c) <= i < s.len() implies s[i]
            == c by {
            if i < s.len() - 1 {
                assert(t[i] == c);
            }
        }
    }
}

/// True of the decimal digit characters.
pub open spec fn is_digit_ch(c: char) -> bool {
    '0' <= c <= '9'
}

/// True of the hexadecimal digit characters, either case.
pub open spec fn is_hex_ch(c: char) -> bool {
    is_digit_ch(c) || ('A' <= c <= 'F') || ('a' <= c <= 'f')
}

/// Value of a hexadecimal digit character.
pub open spec fn hexval_ch(c: char) -> int {
    if is_digit_ch(c) {
        c as int - 48
    } else if 'A' <= c <= 'F' {
        c as int - 55
    } else {
        c as int - 87
    }
}

/// Decimal value of a digit string, read left to right.
pub open spec fn dec_val(s: Seq<char>) -> int
    decreases s.len(),
{
    if s.len() == 0 {
        0
    } else {
        10 * dec_val(s.subrange(0, s.len() - 1)) + (s[s.len() - 1] as int - 48)
    }
}

/// True when every character of `s` is a decimal digit.
pub open spec fn all_digits(s: Seq<char>) -> bool {
    forall|i: int| 0 <= i < s.len() ==> is_digit_ch(#[trigger] s[i])
}

/// What `value.parse()` gives for an unsigned integer with ceiling `max`:
/// the decimal value when `s` is one or more digits and fits, nothing
/// otherwise.
pub open spec fn spec_dec(s: Seq<char>, max: int) -> Option<int> {
    if s.len() >= 1 && all_digits(s) && dec_val(s) <= max {
        Some(dec_val(s))
    } else {
        None
    }
}

/// A digit string's value only grows as it is extended to the right.
pub proof fn lemma_dec_val_mono(s: Seq<char>, k: int)
    requires
        0 <= k <= s.len(),
        all_digits(s),
    ensures
        dec_val(s.subrange(0, k)) <= dec_val(s),
        dec_val(s) >= 0,
    decreases s.len(),
{
    if s.len() > 0 {
        let t = s.subrange(0, s.len() - 1);
        assert(all_digits(t));
        if k == s.len() {
            lemma_dec_val_mono(t, t.len() as int);
            assert(s.subrange(0, k) =~= s);
            assert(s[s.len() - 1] as int - 48 >= 0);
        } else {
            lemma_dec_val_mono(t, k);
            assert(t.subrange(0, k) =~= s.subrange(0, k));
            assert(s[s.len() - 1] as int - 48 >= 0);
        }
    }
}

/// XOR of all bytes of `s`.
pub open spec fn xor_seq(s: Seq<u8>) -> u8
    decreases s.len(),
{
    if s.len() == 0 {
        0
    } else {
        xor_seq(s.subrange(0, s.len() - 1)) ^ s[s.len() - 1]
    }
}

/// The decoded fields of a tag block, before they are turned into owned
/// strings: numeric fields carry their value, textual fields the
/// characters of the value region.
pub struct TagView {
    pub c: Option<u64>,
    pub d: Option<Seq<char>>,
    pub n: Option<u32>,
    pub r: Option<u32>,
    pub s: Option<Seq<char>>,
    pub t: Option<Seq<char>>,
}

/// The view with every field absent.
pub open spec fn empty_tag_view() -> TagView {
    TagView { c: None, d: None, n: None, r: None, s: None, t: None }
}

/// Applies one `key:value` segment to the view: known keys set their
/// field, numeric values that do not parse clear it, unknown keys and
/// segments shorter than three characters change nothing.
pub open spec fn apply_segment(tv: TagView, seg: Seq<char>) -> TagView {
    if seg.len() < 3 {
        tv
    } else if seg[1] != ':' {
        tv
    } else {
        let v = seg.subrange(2, seg.len() as int);
        if seg[0] == 'c' {
            TagView {
                c: match spec_dec(v, 0xffff_ffff_ffff_ffff) {
                    Some(x) => Some(x as u64),
                    None => None,
                },
                ..tv
            }
        } else if seg[0] == 'd' {
            TagView { d: Some(v), ..tv }
        } else if seg[0] == 'n' {
            TagView {
                n: match spec_dec(v, 0xffff_ffff) {
                    Some(x) => Some(x as u32),
                    None => None,
                },
                ..tv
            }
        } else if seg[0] == 'r' {
            TagView {
                r: match spec_dec(v, 0xffff_ffff) {
                    Some(x) => Some(x as u32),
                    None => None,
                },
                ..tv
            }
        } else if seg[0] == 's' {
            TagView { s: Some(v), ..tv }
        } else if seg[0] == 't' {
            TagView { t: Some(v), ..tv }
        } else {
            tv
        }
    }
}

/// Folds every comma-separated segment of `s` into a view, left to
/// right, so that a later occurrence of a key overrides an earlier one.
pub open spec fn spec_kv(s: Seq<char>) -> TagView
    decreases s.len(),
    via spec_kv_dec
{
    match ch_rfind(s, s.len() as int, ',') {
        None => apply_segment(empty_tag_view(), s),
        Some(j) => apply_segment(spec_kv(s.subrange(0, j)), s.subrange(j + 1, s.len() as int)),
    }
}

#[via_fn]
proof fn spec_kv_dec(s: Seq<char>) {
    lemma_ch_rfind(s, s.len() as int, ',');
}

/// The tag block region of `s` once the surrounding backslashes are
/// trimmed away.
pub open spec fn spec_trimmed(s: Seq<char>) -> Seq<char> {
    let a = s.skip(ch_count_leading(s, '\\') as int);
    a.take(a.len() - ch_count_trailing(a, '\\'))
}

/// A trimmed tag block is well formed when exactly two hexadecimal
/// digits follow its last `*`.
pub open spec fn spec_tag_wf(t: Seq<char>) -> bool {
    &&& ch_rfind(t, t.len() as int, '*') is Some
    &&& {
        let j = ch_rfind(t, t.len() as int, '*').unwrap();
        &&& t.len() - (j + 1) == 2
        &&& is_hex_ch(t[j + 1])
        &&& is_hex_ch(t[j + 2])
    }
}

/// The checksum declared after the last `*` of a well-formed trimmed
/// block.
pub open spec fn spec_tag_declared(t: Seq<char>) -> u8 {
    let j = ch_rfind(t, t.len() as int, '*').unwrap();
    (hexval_ch(t[j + 1]) * 16 + hexval_ch(t[j + 2])) as u8
}

/// The checksum computed over the key-value region left of the last `*`
/// of a well-formed trimmed block: the XOR of its UTF-8 bytes.
pub open spec fn spec_tag_computed(t: Seq<char>) -> u8 {
    let j = ch_rfind(t, t.len() as int, '*').unwrap();
    xor_seq(encode_utf8(t.subrange(0, j)))
}

/// Optional metadata prefixed to an NMEA sentence as `\k:v,...*HH\`:
/// receiver timestamp, routing information and a free-text comment,
/// guarded by an XOR checksum.
#[derive(Debug, PartialEq)]
pub struct TagBlock {
    /// Receiver UNIX timestamp, from the `c` key.
    pub receiver_timestamp: Option<u64>,
    /// Destination station, from the `d` key.
    pub destination_station: Option<String>,
    /// Line count, from the `n` key.
    pub line_count: Option<u32>,
    /// Relative time, from the `r` key.
    pub relative_time: Option<u32>,
    /// Source station, from the `s` key.
    pub source_station: Option<String>,
    /// Text comment, from the `t` key.
    pub text: Option<String>,
    /// The declared checksum byte.
    pub checksum: u8,
}

impl TagBlock {
    /// The fields of `self` are exactly the view `tv` with the declared
    /// checksum `cs`.
    pub open spec fn matches(self, tv: TagView, cs: u8) -> bool {
        &&& self.receiver_timestamp == tv.c
        &&& (match (self.destination_station, tv.d) {
            (Some(a), Some(b)) => a@ == b,
            (None, None) => true,
            _ => false,
        })
        &&& self.line_count == tv.n
        &&& self.relative_time == tv.r
        &&& (match (self.source_station, tv.s) {
            (Some(a), Some(b)) => a@ == b,
            (None, None) => true,
            _ => false,
        })
        &&& (match (self.text, tv.t) {
            (Some(a), Some(b)) => a@ == b,
            (None, None) => true,
            _ => false,
        })
        &&& self.checksum == cs
    }

    /// Parses a tag block, given with or without its surrounding
    /// backslashes.
    ///
    /// Returns `Ok(None)` for an empty block, the decoded fields when the
    /// block is well formed and its checksum holds, and a message naming
    /// the fault otherwise.
    pub fn parse(input: &str) -> (r: Result<Option<TagBlock>, String>)
        ensures
            ({
                let t = spec_trimmed(input@);
                &&& t.len() == 0 ==> r == Ok::<Option<TagBlock>, String>(None)
                &&& t.len() > 0 && !spec_tag_wf(t) ==> r is Err
                &&& t.len() > 0 && spec_tag_wf(t) && spec_tag_computed(t) != spec_tag_declared(t)
                    ==> r is Err
                &&& t.len() > 0 && spec_tag_wf(t) && spec_tag_computed(t) == spec_tag_declared(t)
                    ==> match r {
                    Ok(Some(tb)) => tb.matches(
                        spec_kv(t.subrange(0, ch_rfind(t, t.len() as int, '*').unwrap())),
                        spec_tag_declared(t),
                    ),
                    _ => false,
                }
            }),
    {
        match parse_block(input) {
            Ok(tb) => Ok(tb),
            Err(Error::Nmea { msg }) => Err(msg),
            Err(Error::Checksum { .. }) => Err(
                "Checksum mismatch between calculated and declared value".to_owned(),
            ),
            Err(_) => Err("invalid tag block".to_owned()),
        }
    }
}

/// Parses a tag block as `TagBlock::parse` does, reporting faults as
/// typed errors: a framing fault as `Nmea`, a failed XOR comparison as
/// `Checksum` with the declared and computed bytes.
pub fn parse_block(input: &str) -> (r: Result<Option<TagBlock>, Error>)
    ensures
        ({
            let t = spec_trimmed(input@);
            &&& t.len() == 0 ==> r == Ok::<Option<TagBlock>, Error>(None)
            &&& t.len() > 0 && !spec_tag_wf(t) ==> (r matches Err(Error::Nmea { .. }))
            &&& t.len() > 0 && spec_tag_wf(t) && spec_tag_computed(t) != spec_tag_declared(t)
                ==> r == Err::<Option<TagBlock>, Error>(
                Error::Checksum { expected: spec_tag_declared(t), found: spec_tag_computed(t) },
            )
            &&& t.len() > 0 && spec_tag_wf(t) && spec_tag_computed(t) == spec_tag_declared(t)
                ==> match r {
                Ok(Some(tb)) => tb.matches(
                    spec_kv(t.subrange(0, ch_rfind(t, t.len() as int, '*').unwrap())),
                    spec_tag_declared(t),
                ),
                _ => false,
            }
        }),
{
        let n = input.unicode_len();
        let mut lead: usize = 0;
        while lead < n && input.get_char(lead) == '\\'
            invariant
                lead <= n,
                n == input@.len(),
                forall|i: int| 0 <= i < lead ==> input@[i] == '\\',
            decreases n - lead,
        {
            lead = lead + 1;
        }
        proof {
            lemma_ch_count_leading(input@, '\\');
            assert(lead == ch_count_leading(input@, '\\')) by {
                let cl = ch_count_leading(input@, '\\') as int;
                if lead < cl {
                    assert(input@[lead as int] == '\\');
                }
                if cl < lead {
                    assert(input@[cl] == '\\');
                }
            }
        }
        let mut endt: usize = n;
        while endt > lead && input.get_char(endt - 1) == '\\'
            invariant
                lead <= endt <= n,
                n == input@.len(),
                forall|i: int| endt <= i < n ==> input@[i] == '\\',
                forall|i: int| 0 <= i < lead ==> input@[i] == '\\',
            decreases endt,
        {
            endt = endt - 1;
        }
        let ghost a = input@.skip(lead as int);
        proof {
            lemma_ch_count_trailing(a, '\\');
            assert(endt - lead == a.len() - ch_count_trailing(a, '\\')) by {
                let ct = ch_count_trailing(a, '\\') as int;
                let e2 = a.len() - ct + lead;
                assert forall|i: int| e2 <= i < n implies input@[i] == '\\' by {
                    assert(a[i - lead] == '\\');
                }
                if endt < e2 {
                    assert(a[e2 - lead - 1] == input@[e2 - 1]);
                }
                if e2 < endt {
                    assert(input@[endt - 1] == a[endt - 1 - lead]);
                }
            }
        }
        let trimmed = input.substring_char(lead, endt);
        let ghost t = spec_trimmed(input@);
        proof {
            assert(trimmed@ =~= t);
        }
        let tn = endt - lead;
        if tn == 0 {
            return Ok(None);
        }
        let mut j: usize = tn;
        while j > 0 && trimmed.get_char(j - 1) != '*'
            invariant
                j <= tn,
                tn == trimmed@.len(),
                forall|i: int| j <= i < tn ==> trimmed@[i] != '*',
            decreases j,
        {
            j = j - 1;
        }
        proof {
            lemma_ch_rfind(t, t.len() as int, '*');
        }
        if j == 0 {
            return Err(Error::Nmea { msg: "Invalid tag block format: missing checksum".to_owned() });
        }
        let star = j - 1;
        if tn - (star + 1) != 2 {
            return Err(
                Error::Nmea {
                    msg: "Invalid checksum format: checksum should be 2 characters".to_owned(),
                },
            );
        }
        let h1 = trimmed.get_char(star + 1);
        let h2 = trimmed.get_char(star + 2);
        let v1 = match hex_digit(h1) {
            Some(v) => v,
            None => {
                return Err(
                    Error::Nmea {
                        msg: "Invalid checksum format: checksum is not a valid hexadecimal number".to_owned(),
                    },
                );
            },
        };
        let v2 = match hex_digit(h2) {
            Some(v) => v,
            None => {
                return Err(
                    Error::Nmea {
                        msg: "Invalid checksum format: checksum is not a valid hexadecimal number".to_owned(),
                    },
                );
            },
        };
        let declared: u8 = v1 * 16 + v2;
        let kv = trimmed.substring_char(0, star);
        let computed = xor_bytes(kv.as_bytes());
        proof {
            assert(kv@ =~= t.subrange(0, star as int));
        }
        if computed != declared {
            return Err(Error::Checksum { expected: declared, found: computed });
        }
        let fields = parse_kv(kv);
        Ok(
            Some(
                TagBlock {
                    receiver_timestamp: fields.0,
                    destination_station: fields.1,
                    line_count: fields.2,
                    relative_time: fields.3,
                    source_station: fields.4,
                    text: fields.5,
                    checksum: declared,
                },
            ),
        )
    }

/// Value of one hexadecimal digit character, either case.
fn hex_digit(c: char) -> (r: Option<u8>)
    ensures
        r is Some <==> is_hex_ch(c),
        r matches Some(v) ==> v == hexval_ch(c),
{
    if '0' <= c && c <= '9' {
        Some(((c as u32) - 48) as u8)
    } else if 'A' <= c && c <= 'F' {
        Some(((c as u32) - 55) as u8)
    } else if 'a' <= c && c <= 'f' {
        Some(((c as u32) - 87) as u8)
    } else {
        None
    }
}

/// XOR of all bytes of a slice.
pub fn xor_bytes(data: &[u8]) -> (r: u8)
    ensures
        r == xor_seq(data@),
{
    let mut acc: u8 = 0;
    let mut i: usize = 0;
    while i < data.len()
        invariant
            i <= data@.len(),
            acc == xor_seq(data@.subrange(0, i as int)),
        decreases data@.len() - i,
    {
        proof {
            assert(data@.subrange(0, i as int) =~= data@.subrange(0, i + 1).subrange(0, i as int));
            assert(data@.subrange(0, i + 1)[i as int] == data@[i as int]);
        }
        acc = acc ^ data[i];
        i = i + 1;
    }
    proof {
        assert(data@.subrange(0, data@.len() as int) =~= data@);
    }
    acc
}

/// Parses a digit string as a `u64`, refusing overflow.
fn parse_u64_dec(s: &str) -> (r: Option<u64>)
    ensures
        r is Some <==> (s@.len() >= 1 && all_digits(s@) && dec_val(s@) <= 0xffff_ffff_ffff_ffff),
        r matches Some(v) ==> v == dec_val(s@),
{
    let n = s.unicode_len();
    if n == 0 {
        return None;
    }
    let mut acc: u64 = 0;
    let mut i: usize = 0;
    while i < n
        invariant
            i <= n,
            n == s@.len(),
            all_digits(s@.subrange(0, i as int)),
            acc == dec_val(s@.subrange(0, i as int)),
        decreases n - i,
    {
        let c = s.get_char(i);
        if !('0' <= c && c <= '9') {
            return None;
        }
        let d = ((c as u32) - 48) as u64;
        if acc > (0xffff_ffff_ffff_ffffu64 - d) / 10 {
            proof {
                assert(all_digits(s@.subrange(0, i + 1)));
                assert(s@.subrange(0, i + 1).subrange(0, i as int) =~= s@.subrange(0, i as int));
                assert(dec_val(s@.subrange(0, i + 1)) == 10 * acc + d);
                if all_digits(s@) {
                    lemma_dec_val_mono(s@, i + 1);
                    assert(s@.subrange(0, s@.len() as int) =~= s@);
                    assert(dec_val(s@) >= 10 * acc + d) by {
                        lemma_dec_val_mono(s@, i + 1);
                    }
                    assert(10 * acc + d > 0xffff_ffff_ffff_ffff) by (nonlinear_arith)
                        requires
                            acc > (0xffff_ffff_ffff_ffffu64 - d) / 10,
                            d < 10,
                    ;
                }
            }
            return None;
        }
        proof {
            assert(10 * acc + d <= 0xffff_ffff_ffff_ffff) by (nonlinear_arith)
                requires
                    acc <= (0xffff_ffff_ffff_ffffu64 - d) / 10,
                    d < 10,
            ;
            assert(all_digits(s@.subrange(0, i + 1)));
            assert(s@.subrange(0, i + 1).subrange(0, i as int) =~= s@.subrange(0, i as int));
        }
        acc = 10 * acc + d;
        i = i + 1;
    }
    proof {
        assert(s@.subrange(0, s@.len() as int) =~= s@);
        lemma_dec_val_mono(s@, s@.len() as int);
    }
    Some(acc)
}

/// Parses a digit string as a `u32`, refusing overflow.
fn parse_u32_dec(s: &str) -> (r: Option<u32>)
    ensures
        r is Some <==> (s@.len() >= 1 && all_digits(s@) && dec_val(s@) <= 0xffff_ffff),
        r matches Some(v) ==> v == dec_val(s@),
{
    match parse_u64_dec(s) {
        Some(v) => {
            if v <= 0xffff_ffff {
                Some(v as u32)
            } else {
                None
            }
        },
        None => None,
    }
}

/// Walks the comma-separated `key:value` segments of the region before
/// the `*`, building the six optional fields.
fn parse_kv(kv: &str) -> (r: (
    Option<u64>,
    Option<String>,
    Option<u32>,
    Option<u32>,
    Option<String>,
    Option<String>,
))
    ensures
        ({
            let tv = spec_kv(kv@);
            &&& r.0 == tv.c
            &&& (match (r.1, tv.d) {
                (Some(a), Some(b)) => a@ == b,
                (None, None) => true,
                _ => false,
            })
            &&& r.2 == tv.n
            &&& r.3 == tv.r
            &&& (match (r.4, tv.s) {
                (Some(a), Some(b)) => a@ == b,
                (None, None) => true,
                _ => false,
            })
            &&& (match (r.5, tv.t) {
                (Some(a), Some(b)) => a@ == b,
                (None, None) => true,
                _ => false,
            })
        }),
{
    let n = kv.unicode_len();
    let mut c: Option<u64> = None;
    let mut d: Option<String> = None;
    let mut nn: Option<u32> = None;
    let mut rr: Option<u32> = None;
    let mut s: Option<String> = None;
    let mut t: Option<String> = None;
    let mut start: usize = 0;
    loop
        invariant_except_break
            start <= n,
            n == kv@.len(),
            start == 0 || (start >= 1 && kv@[start as int - 1] == ','),
            ({
                let tv = spec_kv(kv@.subrange(0, if start == 0 {
                    0
                } else {
                    start as int - 1
                }));
                &&& c == tv.c
                &&& (match (d, tv.d) {
                    (Some(a), Some(b)) => a@ == b,
                    (None, None) => true,
                    _ => false,
                })
                &&& nn == tv.n
                &&& rr == tv.r
                &&& (match (s, tv.s) {
                    (Some(a), Some(b)) => a@ == b,
                    (None, None) => true,
                    _ => false,
                })
                &&& (match (t, tv.t) {
                    (Some(a), Some(b)) => a@ == b,
                    (None, None) => true,
                    _ => false,
                })
            }),
        ensures
            ({
                let tv = spec_kv(kv@);
                &&& c == tv.c
                &&& (match (d, tv.d) {
                    (Some(a), Some(b)) => a@ == b,
                    (None, None) => true,
                    _ => false,
                })
                &&& nn == tv.n
                &&& rr == tv.r
                &&& (match (s, tv.s) {
                    (Some(a), Some(b)) => a@ == b,
                    (None, None) => true,
                    _ => false,
                })
                &&& (match (t, tv.t) {
                    (Some(a), Some(b)) => a@ == b,
                    (None, None) => true,
                    _ => false,
                })
            }),
        decreases n + 1 - start,
    {
        let mut end: usize = start;
        while end < n && kv.get_char(end) != ','
            invariant
                start <= end <= n,
                n == kv@.len(),
                forall|i: int| start <= i < end ==> kv@[i] != ',',
            decreases n - end,
        {
            end = end + 1;
        }
        let seg = kv.substring_char(start, end);
        let ghost prefix = kv@.subrange(0, end as int);
        proof {
            lemma_ch_rfind(prefix, prefix.len() as int, ',');
            if start == 0 {
                let ro = ch_rfind(prefix, prefix.len() as int, ',');
                if ro is Some {
                    let j = ro.unwrap();
                    assert(prefix[j] == ',');
                    assert(kv@[j] != ',');
                }
                assert(ro is None);
                assert(spec_kv(prefix) == apply_segment(empty_tag_view(), prefix));
                assert(seg@ =~= prefix);
            } else {
                let ro = ch_rfind(prefix, prefix.len() as int, ',');
                assert(prefix[start as int - 1] == ',');
                if ro is Some {
                    let j = ro.unwrap();
                    if j < start - 1 {
                        assert(prefix[start as int - 1] == ',');
                        assert(false);
                    }
                    if j > start - 1 {
                        assert(prefix[j] == kv@[j]);
                        assert(kv@[j] != ',');
                        assert(false);
                    }
                }
                assert(ro == Some(start as int - 1));
                assert(spec_kv(prefix) == apply_segment(
                    spec_kv(prefix.subrange(0, start as int - 1)),
                    prefix.subrange(start as int, prefix.len() as int),
                ));
                assert(prefix.subrange(0, start as int - 1) =~= kv@.subrange(0, start as int - 1));
                assert(seg@ =~= prefix.subrange(start as int, prefix.len() as int));
            }
        }
        let seg_len = end - start;
        if seg_len >= 3 {
            let k0 = seg.get_char(0);
            let k1 = seg.get_char(1);
            if k1 == ':' {
                let value = seg.substring_char(2, seg_len);
                if k0 == 'c' {
                    c = parse_u64_dec(value);
                } else if k0 == 'd' {
                    d = Some(value.to_owned());
                } else if k0 == 'n' {
                    nn = parse_u32_dec(value);
                } else if k0 == 'r' {
                    rr = parse_u32_dec(value);
                } else if k0 == 's' {
                    s = Some(value.to_owned());
                } else if k0 == 't' {
                    t = Some(value.to_owned());
                }
            }
        }
        if end == n {
            proof {
                assert(kv@.subrange(0, n as int) =~= kv@);
            }
            break ;
        }
        start = end + 1;
    }
    (c, d, nn, rr, s, t)
}

} // verus!

//! Sentence layer: NMEA framing, checksum verification, tag-block
//! handling and fragment reassembly.
use crate::bits::bits_u;
use crate::errors::Error;
use crate::messages::tag_block::{
    spec_kv, spec_tag_computed, spec_tag_declared, spec_tag_wf, spec_trimmed, xor_seq, TagBlock,
};
use crate::messages::{self, AisMessage};
use vstd::prelude::*;
use vstd::string::StringSliceAdditionalSpecFns;
use vstd::utf8::{decode_utf8, valid_utf8};

verus! {

/// The longest NMEA sentence line the protocol allows, in bytes.
pub const MAX_SENTENCE_SIZE_BYTES: usize = 384;

/// The NMEA report kind of an AIS sentence.
#[derive(Debug, PartialEq, Eq, Copy, Clone)]
pub enum AisReportType {
    /// Report from another ship.
    VDM,
    /// Report from own ship.
    VDO,
    /// Unknown report type.
    Unknown,
}

/// The report kind named by a three-byte field.
pub open spec fn spec_report_type(s: Seq<u8>) -> AisReportType {
    if s.len() == 3 && s[0] == 86 && s[1] == 68 && s[2] == 77 {
        AisReportType::VDM
    } else if s.len() == 3 && s[0] == 86 && s[1] == 68 && s[2] == 79 {
        AisReportType::VDO
    } else {
        AisReportType::Unknown
    }
}

impl<'a> vstd::std_specs::convert::FromSpecImpl<&'a [u8]> for AisReportType {
    open spec fn obeys_from_spec() -> bool {
        true
    }

    open spec fn from_spec(v: &'a [u8]) -> AisReportType {
        spec_report_type(v@)
    }
}

impl<'a> From<&'a [u8]> for AisReportType {
    /// Reads the kind from its wire spelling; anything else is unknown.
    fn from(typ: &'a [u8]) -> (r: Self) {
        if typ.len() == 3 && typ[0] == 86 && typ[1] == 68 && typ[2] == 77 {
            Self::VDM
        } else if typ.len() == 3 && typ[0] == 86 && typ[1] == 68 && typ[2] == 79 {
            Self::VDO
        } else {
            Self::Unknown
        }
    }
}

/// Talker identifier of the AIS station that emitted the sentence.
#[derive(Debug, PartialEq, Eq, Copy, Clone)]
pub enum TalkerId {
    /// NMEA 4.0 Base AIS station.
    AB,
    /// NMEA 4.0 Dependent AIS Base station.
    AD,
    /// Mobile AIS station.
    AI,
    /// NMEA 4.0 Aid to Navigation AIS station.
    AN,
    /// NMEA 4.0 AIS Receiving station.
    AR,
    /// NMEA 4.0 Limited Base station.
    AS,
    /// NMEA 4.0 AIS Transmitting station.
    AT,
    /// NMEA 4.0 Repeater AIS station.
    AX,
    /// Base AIS station (deprecated).
    BS,
    /// NMEA 4.0 Physical Shore AIS station.
    SA,
    /// Unknown talker ID.
    Unknown,
}

/// The talker named by a two-byte field.
pub open spec fn spec_talker_id(s: Seq<u8>) -> TalkerId {
    if s.len() != 2 {
        TalkerId::Unknown
    } else if s[0] == 65 && s[1] == 66 {
        TalkerId::AB
    } else if s[0] == 65 && s[1] == 68 {
        TalkerId::AD
    } else if s[0] == 65 && s[1] == 73 {
        TalkerId::AI
    } else if s[0] == 65 && s[1] == 78 {
        TalkerId::AN
    } else if s[0] == 65 && s[1] == 82 {
        TalkerId::AR
    } else if s[0] == 65 && s[1] == 83 {
        TalkerId::AS
    } else if s[0] == 65 && s[1] == 84 {
        TalkerId::AT
    } else if s[0] == 65 && s[1] == 88 {
        TalkerId::AX
    } else if s[0] == 66 && s[1] == 83 {
        TalkerId::BS
    } else if s[0] == 83 && s[1] == 65 {
        TalkerId::SA
    } else {
        TalkerId::Unknown
    }
}

impl<'a> vstd::std_specs::convert::FromSpecImpl<&'a [u8]> for TalkerId {
    open spec fn obeys_from_spec() -> bool {
        true
    }

    open spec fn from_spec(v: &'a [u8]) -> TalkerId {
        spec_talker_id(v@)
    }
}

impl<'a> From<&'a [u8]> for TalkerId {
    /// Reads the talker from its wire spelling; anything else is unknown.
    fn from(talker_id: &'a [u8]) -> (r: Self) {
        if talker_id.len() != 2 {
            Self::Unknown
        } else {
            let a = talker_id[0];
            let b = talker_id[1];
            if a == 65 && b == 66 {
                Self::AB
            } else if a == 65 && b == 68 {
                Self::AD
            } else if a == 65 && b == 73 {
                Self::AI
            } else if a == 65 && b == 78 {
                Self::AN
            } else if a == 65 && b == 82 {
                Self::AR
            } else if a == 65 && b == 83 {
                Self::AS
            } else if a == 65 && b == 84 {
                Self::AT
            } else if a == 65 && b == 88 {
                Self::AX
            } else if a == 66 && b == 83 {
                Self::BS
            } else if a == 83 && b == 65 {
                Self::SA
            } else {
                Self::Unknown
            }
        }
    }
}

/// One framed NMEA sentence, with its decoded inner message when
/// requested and complete.
#[derive(Debug, PartialEq)]
pub struct AisSentence {
    pub talker_id: TalkerId,
    pub report_type: AisReportType,
    pub num_fragments: u8,
    pub fragment_number: u8,
    pub message_id: Option<u8>,
    pub channel: Option<char>,
    pub data: Vec<u8>,
    pub fill_bit_count: u8,
    pub message_type: u8,
    pub message: Option<AisMessage>,
}

impl AisSentence {
    /// Whether more fragments of this sentence's group are still to come.
    pub fn has_more(&self) -> (r: bool)
        ensures
            r == (self.fragment_number < self.num_fragments),
    {
        self.fragment_number < self.num_fragments
    }

    /// Whether this sentence is part of a fragmented message set.
    pub fn is_fragment(&self) -> (r: bool)
        ensures
            r == (self.num_fragments != 1),
    {
        self.num_fragments != 1
    }
}

/// A framed sentence and whether its message group is complete.
#[derive(Debug, PartialEq)]
pub enum AisFragments {
    Complete(AisSentence),
    Incomplete(AisSentence),
}

/// First position at or after `from` where `s` holds the byte `b`.
pub open spec fn bfind(s: Seq<u8>, from: int, b: u8) -> Option<int>
    decreases s.len() - from,
{
    if !(0 <= from < s.len()) {
        None
    } else if s[from] == b {
        Some(from)
    } else {
        bfind(s, from + 1, b)
    }
}

/// What `bfind` returns: the first occurrence at or after `from`.
pub proof fn lemma_bfind(s: Seq<u8>, from: int, b: u8)
    requires
        0 <= from,
    ensures
        match bfind(s, from, b) {
            Some(j) => from <= j < s.len() && s[j] == b && forall|i: int|
                from <= i < j ==> s[i] != b,
            None => forall|i: int| from <= i < s.len() ==> s[i] != b,
        },
    decreases s.len() - from,
{
    if 0 <= from < s.len() && s[from] != b {
        lemma_bfind(s, from + 1, b);
    }
}

/// True of ASCII decimal digit bytes.
pub open spec fn is_digit_b(b: u8) -> bool {
    48 <= b <= 57
}

/// True of ASCII hexadecimal digit bytes, either case.
pub open spec fn is_hex_b(b: u8) -> bool {
    is_digit_b(b) || (65 <= b <= 70) || (97 <= b <= 102)
}

/// Value of an ASCII hexadecimal digit byte.
pub open spec fn hexval_b(b: u8) -> int {
    if is_digit_b(b) {
        b - 48
    } else if 65 <= b <= 70 {
        b - 55
    } else {
        b - 87
    }
}

/// Index of the `!` or `$` that starts the sentence body: 0, or just
/// past the closing backslash of a tag-block prefix.
pub open spec fn f_start(l: Seq<u8>) -> Option<int> {
    if l.len() == 0 {
        None
    } else if l[0] == 92 {
        match bfind(l, 1, 92) {
            None => None,
            Some(e) => if e + 1 < l.len() && (l[e + 1] == 33 || l[e + 1] == 36) {
                Some(e + 1)
            } else {
                None
            },
        }
    } else if l[0] == 33 || l[0] == 36 {
        Some(0)
    } else {
        None
    }
}

/// The comma ending the group-id field, when the fields start at `a`.
pub open spec fn f_cg(l: Seq<u8>, a: int) -> Option<int> {
    bfind(l, a + 10, 44)
}

/// The comma ending the channel field.
pub open spec fn f_cc(l: Seq<u8>, a: int) -> Option<int> {
    bfind(l, f_cg(l, a).unwrap() + 1, 44)
}

/// The comma ending the armored payload.
pub open spec fn f_cp(l: Seq<u8>, a: int) -> Option<int> {
    bfind(l, f_cc(l, a).unwrap() + 1, 44)
}

/// Grammar of the sentence fields starting at `a` (the first talker
/// byte): talker and report kind, single-digit fragment count and index,
/// optional single-digit group id, optional channel, non-empty payload
/// and a fill-bit digit of five or less.
pub open spec fn frame_body_ok(l: Seq<u8>, a: int) -> bool {
    &&& 0 <= a
    &&& a + 10 <= l.len()
    &&& l[a + 5] == 44
    &&& l[a + 7] == 44
    &&& l[a + 9] == 44
    &&& is_digit_b(l[a + 6]) && l[a + 6] != 48
    &&& is_digit_b(l[a + 8]) && l[a + 8] != 48
    &&& l[a + 8] <= l[a + 6]
    &&& f_cg(l, a) is Some
    &&& {
        let cg = f_cg(l, a).unwrap();
        &&& (cg == a + 10 || (cg == a + 11 && is_digit_b(l[a + 10])))
        &&& f_cc(l, a) is Some
        &&& {
            let cc = f_cc(l, a).unwrap();
            &&& f_cp(l, a) is Some
            &&& {
                let cp = f_cp(l, a).unwrap();
                &&& cp > cc + 1
                &&& cp + 1 < l.len()
                &&& is_digit_b(l[cp + 1]) && l[cp + 1] <= 53
            }
        }
    }
}

/// Grammar of a whole line: an optional tag block, a start mark, the
/// sentence fields, and `*` with two hexadecimal checksum digits.
pub open spec fn frame_ok(l: Seq<u8>) -> bool {
    &&& f_start(l) is Some
    &&& frame_body_ok(l, f_start(l).unwrap() + 1)
    &&& {
        let cp = f_cp(l, f_start(l).unwrap() + 1).unwrap();
        &&& cp + 4 < l.len()
        &&& l[cp + 2] == 42
        &&& is_hex_b(l[cp + 3])
        &&& is_hex_b(l[cp + 4])
    }
}

/// Fragment count digit.
pub open spec fn f_nf(l: Seq<u8>, a: int) -> u8 {
    (l[a + 6] - 48) as u8
}

/// Fragment index digit.
pub open spec fn f_fi(l: Seq<u8>, a: int) -> u8 {
    (l[a + 8] - 48) as u8
}

/// Optional group-id digit.
pub open spec fn f_gid(l: Seq<u8>, a: int) -> Option<u8> {
    if f_cg(l, a).unwrap() == a + 11 {
        Some((l[a + 10] - 48) as u8)
    } else {
        None
    }
}

/// Optional channel character: the first byte of the channel field.
pub open spec fn f_channel(l: Seq<u8>, a: int) -> Option<char> {
    if f_cc(l, a).unwrap() > f_cg(l, a).unwrap() + 1 {
        Some(l[f_cg(l, a).unwrap() + 1] as char)
    } else {
        None
    }
}

/// The armored payload bytes.
pub open spec fn f_payload(l: Seq<u8>, a: int) -> Seq<u8> {
    l.subrange(f_cc(l, a).unwrap() + 1, f_cp(l, a).unwrap())
}

/// Fill-bit digit.
pub open spec fn f_fill(l: Seq<u8>, a: int) -> u8 {
    (l[f_cp(l, a).unwrap() + 1] - 48) as u8
}

/// The declared checksum: two hexadecimal digits after the `*`.
pub open spec fn f_checksum(l: Seq<u8>) -> u8 {
    let cp = f_cp(l, f_start(l).unwrap() + 1).unwrap();
    (hexval_b(l[cp + 3]) * 16 + hexval_b(l[cp + 4])) as u8
}

/// The checksum computed over the bytes between the start mark and the
/// `*`, both exclusive.
pub open spec fn f_xor(l: Seq<u8>) -> u8 {
    let bs = f_start(l).unwrap();
    let cp = f_cp(l, bs + 1).unwrap();
    xor_seq(l.subrange(bs + 1, cp + 2))
}

/// Finds the first occurrence of `b` at or after `from`.
fn find_byte(data: &[u8], from: usize, b: u8) -> (r: Option<usize>)
    ensures
        match r {
            Some(j) => from <= j < data@.len() && Some(j as int) == bfind(data@, from as int, b),
            None => bfind(data@, from as int, b) is None,
        },
{
    let mut i: usize = from;
    while i < data.len()
        invariant
            from <= i,
            forall|t: int| from <= t < i ==> data@[t] != b,
        decreases data@.len() - i,
    {
        if data[i] == b {
            proof {
                lemma_bfind(data@, from as int, b);
                let fo = bfind(data@, from as int, b);
                if fo is Some {
                    let j = fo.unwrap();
                    if j < i {
                        assert(data@[j] != b);
                    }
                }
            }
            return Some(i);
        }
        i = i + 1;
    }
    proof {
        lemma_bfind(data@, from as int, b);
        let fo = bfind(data@, from as int, b);
        if fo is Some {
            let j = fo.unwrap();
            assert(data@[j] != b);
        }
    }
    None
}

/// Frames the sentence fields starting at offset `a` (the first talker
/// byte), returning the partially populated sentence and the index of
/// the comma that closes the payload.
fn parse_body(line: &[u8], a: usize) -> (r: Result<(AisSentence, usize), Error>)
    requires
        line@.len() * 8 <= usize::MAX,
    ensures
        r is Ok <==> frame_body_ok(line@, a as int),
        r matches Ok(p) ==> ({
            &&& frame_body_ok(line@, a as int)
            &&& p.1 == f_cp(line@, a as int).unwrap()
            &&& a + 12 < p.1 < line@.len()
            &&& sentence_matches_at(p.0, line@, a as int)
            &&& p.0.message is None
        }),
        r is Err ==> r matches Err(Error::Nmea { .. }),
{
    let n = line.len();
    if a > n || n - a < 10 {
        return Err(Error::Nmea { msg: "sentence too short".to_owned() });
    }
    if !(line[a + 5] == 44 && line[a + 7] == 44 && line[a + 9] == 44) {
        return Err(Error::Nmea { msg: "missing comma".to_owned() });
    }
    let nf_b = line[a + 6];
    let fi_b = line[a + 8];
    if !(48 < nf_b && nf_b <= 57) || !(48 < fi_b && fi_b <= 57) {
        return Err(Error::Nmea { msg: "bad fragment digit".to_owned() });
    }
    if fi_b > nf_b {
        return Err(Error::Nmea { msg: "fragment index exceeds fragment count".to_owned() });
    }
    let cg = match find_byte(line, a + 10, 44) {
        Some(j) => j,
        None => {
            return Err(Error::Nmea { msg: "missing comma".to_owned() });
        },
    };
    let message_id: Option<u8>;
    if cg == a + 10 {
        message_id = None;
    } else if cg == a + 11 && 48 <= line[a + 10] && line[a + 10] <= 57 {
        message_id = Some(line[a + 10] - 48);
    } else {
        return Err(Error::Nmea { msg: "bad message group id".to_owned() });
    }
    let cc = match find_byte(line, cg + 1, 44) {
        Some(j) => j,
        None => {
            return Err(Error::Nmea { msg: "missing comma".to_owned() });
        },
    };
    let channel: Option<char> = if cc > cg + 1 {
        Some(line[cg + 1] as char)
    } else {
        None
    };
    let cp = match find_byte(line, cc + 1, 44) {
        Some(j) => j,
        None => {
            return Err(Error::Nmea { msg: "missing comma".to_owned() });
        },
    };
    if !(cp > cc + 1) {
        return Err(Error::Nmea { msg: "empty payload".to_owned() });
    }
    if !(cp + 1 < n) {
        return Err(Error::Nmea { msg: "missing fill bits".to_owned() });
    }
    let fill_b = line[cp + 1];
    if !(48 <= fill_b && fill_b <= 53) {
        return Err(Error::Nmea { msg: "bad fill bit count".to_owned() });
    }
    let payload = &line[cc + 1..cp];
    let message_type = match messages::message_type(payload) {
        Ok(t) => t,
        Err(_) => {
            proof {
                assert(false);
            }
            return Err(Error::Nmea { msg: "empty payload".to_owned() });
        },
    };
    let data = vstd::slice::slice_to_vec(payload);
    let talker_bytes = &line[a..a + 2];
    let report_bytes = &line[a + 2..a + 5];
    let talker_id = TalkerId::from(talker_bytes);
    let report_type = AisReportType::from(report_bytes);
    proof {
        assert(line@.subrange(a as int, a as int + 2) =~= talker_bytes@);
        assert(line@.subrange(a as int + 2, a as int + 5) =~= report_bytes@);
        assert(f_payload(line@, a as int) =~= payload@);
    }
    Ok(
        (
            AisSentence {
                talker_id,
                report_type,
                num_fragments: nf_b - 48,
                fragment_number: fi_b - 48,
                message_id,
                channel,
                data,
                fill_bit_count: fill_b - 48,
                message_type,
                message: None,
            },
            cp,
        ),
    )
}

/// The fields of `s` are exactly the frame fields at offset `a` of `l`,
/// with the payload as its own data.
pub open spec fn sentence_matches_at(s: AisSentence, l: Seq<u8>, a: int) -> bool {
    &&& s.talker_id == spec_talker_id(l.subrange(a, a + 2))
    &&& s.report_type == spec_report_type(l.subrange(a + 2, a + 5))
    &&& s.num_fragments == f_nf(l, a)
    &&& s.fragment_number == f_fi(l, a)
    &&& s.message_id == f_gid(l, a)
    &&& s.channel == f_channel(l, a)
    &&& s.data@ == f_payload(l, a)
    &&& s.fill_bit_count == f_fill(l, a)
    &&& s.message_type == bits_u(f_payload(l, a), 0, 6)
}

/// Frames the sentence fields of a body that starts directly with the
/// talker bytes, as they stand between the `!` and the `*` of a full
/// line.
pub fn parse_ais_sentence(body: &[u8]) -> (r: Result<AisSentence, Error>)
    requires
        body@.len() * 8 <= usize::MAX,
    ensures
        r is Ok <==> frame_body_ok(body@, 0),
        r matches Ok(s) ==> sentence_matches_at(s, body@, 0) && s.message is None,
        r is Err ==> r matches Err(Error::Nmea { .. }),
{
    match parse_body(body, 0) {
        Ok((s, _)) => Ok(s),
        Err(e) => Err(e),
    }
}

/// Frames a whole NMEA line: optional tag block, start mark, fields,
/// `*` and the declared checksum. Returns the sentence, the declared
/// checksum, and the range of bytes the checksum covers.
pub fn parse_nmea_sentence(line: &[u8]) -> (r: Result<(AisSentence, u8, usize, usize), Error>)
    requires
        line@.len() * 8 <= usize::MAX,
    ensures
        r is Ok <==> frame_ok(line@),
        r matches Ok(p) ==> ({
            let l = line@;
            let bs = f_start(l).unwrap();
            &&& sentence_matches_at(p.0, l, bs + 1)
            &&& p.0.message is None
            &&& p.1 == f_checksum(l)
            &&& p.2 == bs + 1
            &&& p.3 == f_cp(l, bs + 1).unwrap() + 2
            &&& 1 <= p.2 <= p.3 <= line@.len()
        }),
        r is Err ==> r matches Err(Error::Nmea { .. }),
{
    let n = line.len();
    if n == 0 {
        return Err(Error::Nmea { msg: "empty line".to_owned() });
    }
    let bs: usize;
    if line[0] == 92 {
        let e = match find_byte(line, 1, 92) {
            Some(j) => j,
            None => {
                return Err(Error::Nmea { msg: "unterminated tag block".to_owned() });
            },
        };
        if !(e + 1 < n && (line[e + 1] == 33 || line[e + 1] == 36)) {
            return Err(Error::Nmea { msg: "missing start mark".to_owned() });
        }
        bs = e + 1;
    } else if line[0] == 33 || line[0] == 36 {
        bs = 0;
    } else {
        return Err(Error::Nmea { msg: "missing start mark".to_owned() });
    }
    let (sentence, cp) = parse_body(line, bs + 1)?;
    if !(cp + 4 < n) {
        return Err(Error::Nmea { msg: "missing checksum".to_owned() });
    }
    if line[cp + 2] != 42 {
        return Err(Error::Nmea { msg: "missing checksum separator".to_owned() });
    }
    let h1 = match hex_digit_b(line[cp + 3]) {
        Some(v) => v,
        None => {
            return Err(Error::Nmea { msg: "bad checksum digit".to_owned() });
        },
    };
    let h2 = match hex_digit_b(line[cp + 4]) {
        Some(v) => v,
        None => {
            return Err(Error::Nmea { msg: "bad checksum digit".to_owned() });
        },
    };
    Ok((sentence, h1 * 16 + h2, bs + 1, cp + 2))
}

/// Value of one ASCII hexadecimal digit byte, either case.
fn hex_digit_b(b: u8) -> (r: Option<u8>)
    ensures
        r is Some <==> is_hex_b(b),
        r matches Some(v) ==> v == hexval_b(b),
{
    if 48 <= b && b <= 57 {
        Some(b - 48)
    } else if 65 <= b && b <= 70 {
        Some(b - 55)
    } else if 97 <= b && b <= 102 {
        Some(b - 87)
    } else {
        None
    }
}

/// The reassembly state of a parser, as mathematical values.
pub struct ParserView {
    pub message_id: Option<u8>,
    pub fragment_number: u8,
    pub data: Seq<u8>,
}

/// What one `parse` call does at the sentence layer.
pub enum StepOutcome {
    /// The line was rejected; the state is unchanged.
    Rejected,
    /// A fragment was absorbed; more are needed for a complete message.
    Fragment,
    /// A complete armored payload, with the fill-bit count that applies
    /// to it.
    Done { data: Seq<u8>, fill: u8 },
}

/// Whether the line carries a tag-block prefix.
pub open spec fn has_tag(l: Seq<u8>) -> bool {
    l.len() > 0 && l[0] == 92
}

/// The bytes of the tag-block prefix, backslashes included.
pub open spec fn tag_region(l: Seq<u8>) -> Seq<u8> {
    l.subrange(0, f_start(l).unwrap())
}

/// The characters of the tag-block prefix.
pub open spec fn tag_chars(l: Seq<u8>) -> Seq<char> {
    decode_utf8(tag_region(l))
}

/// Whether the tag block of the line, when one is present, is valid:
/// UTF-8, and either empty or well formed with a matching checksum.
pub open spec fn spec_tag_ok(l: Seq<u8>) -> bool {
    !has_tag(l) || {
        &&& valid_utf8(tag_region(l))
        &&& {
            let t = spec_trimmed(tag_chars(l));
            ||| t.len() == 0
            ||| (spec_tag_wf(t) && spec_tag_computed(t) == spec_tag_declared(t))
        }
    }
}

/// The tag block returned for the line: absent without a prefix or for
/// an empty one, otherwise the decoded fields of the valid block.
pub open spec fn tag_matches(tb: Option<TagBlock>, l: Seq<u8>) -> bool {
    if !has_tag(l) {
        tb is None
    } else {
        let t = spec_trimmed(tag_chars(l));
        if t.len() == 0 {
            tb is None
        } else {
            match tb {
                Some(tb) => tb.matches(
                    spec_kv(
                        t.subrange(
                            0,
                            crate::messages::tag_block::ch_rfind(t, t.len() as int, '*').unwrap(),
                        ),
                    ),
                    spec_tag_declared(t),
                ),
                None => false,
            }
        }
    }
}

/// A line is accepted by the sentence layer when it frames, its tag
/// block (if any) is valid, and its checksum holds.
pub open spec fn accepted(l: Seq<u8>) -> bool {
    frame_ok(l) && spec_tag_ok(l) && f_xor(l) == f_checksum(l)
}

/// The most armored payload bytes the reassembly buffer will hold: what
/// the armor codec can widen into a bit count that still fits in
/// `usize`.
pub open spec fn buffer_limit() -> int {
    (usize::MAX - 7) / 6
}

/// Whether the reassembly state is idle: no group is being assembled.
/// A fragment index on the wire is always one or more, so a last-seen
/// index of zero marks the idle state.
pub open spec fn spec_idle(v: ParserView) -> bool {
    v.fragment_number == 0
}

/// How one accepted line moves the reassembly state: a first fragment of
/// a group starts assembly only from the idle state, an in-order later
/// fragment extends the buffer, the final fragment of a group drains it
/// back to idle, an unfragmented sentence bypasses it, and every mismatch
/// - a differing group id, a skipped index, or a new first fragment
/// while a group is mid-assembly - leaves the state exactly as it was.
pub open spec fn spec_step(v: ParserView, l: Seq<u8>) -> ParserView {
    if !accepted(l) {
        v
    } else {
        let a = f_start(l).unwrap() + 1;
        let nf = f_nf(l, a);
        let fi = f_fi(l, a);
        let gid = f_gid(l, a);
        let pl = f_payload(l, a);
        if nf == 1 {
            v
        } else if fi == 1 {
            if spec_idle(v) {
                ParserView { message_id: gid, fragment_number: 1, data: pl }
            } else {
                v
            }
        } else if gid == v.message_id && fi == v.fragment_number + 1 && v.data.len() + pl.len()
            <= buffer_limit() {
            if fi < nf {
                ParserView { message_id: v.message_id, fragment_number: fi, data: v.data + pl }
            } else {
                ParserView { message_id: None, fragment_number: 0, data: Seq::empty() }
            }
        } else {
            v
        }
    }
}

/// The outcome of one accepted or rejected line: whether it was refused,
/// absorbed as a fragment, or completed a payload.
pub open spec fn spec_step_out(v: ParserView, l: Seq<u8>) -> StepOutcome {
    if !accepted(l) {
        StepOutcome::Rejected
    } else {
        let a = f_start(l).unwrap() + 1;
        let nf = f_nf(l, a);
        let fi = f_fi(l, a);
        let gid = f_gid(l, a);
        let pl = f_payload(l, a);
        if nf == 1 {
            StepOutcome::Done { data: pl, fill: f_fill(l, a) }
        } else if fi == 1 {
            if spec_idle(v) {
                StepOutcome::Fragment
            } else {
                StepOutcome::Rejected
            }
        } else if gid == v.message_id && fi == v.fragment_number + 1 && v.data.len() + pl.len()
            <= buffer_limit() {
            if fi < nf {
                StepOutcome::Fragment
            } else {
                StepOutcome::Done { data: v.data + pl, fill: f_fill(l, a) }
            }
        } else {
            StepOutcome::Rejected
        }
    }
}

/// Relies on `core::str::from_utf8`: it succeeds exactly on valid UTF-8
/// and returns the string slice of those same bytes.
#[verifier::external_body]
fn bytes_to_str(bytes: &[u8]) -> (r: Option<&str>)
    ensures
        r is Some <==> valid_utf8(bytes@),
        r matches Some(s) ==> s.spec_bytes() == bytes@,
{
    core::str::from_utf8(bytes).ok()
}

/// The stateful sentence parser: frames lines, verifies checksums and
/// reassembles fragmented message groups.
#[derive(Debug)]
pub struct AisParser {
    message_id: Option<u8>,
    fragment_number: u8,
    data: Vec<u8>,
}

impl View for AisParser {
    type V = ParserView;

    closed spec fn view(&self) -> ParserView {
        ParserView {
            message_id: self.message_id,
            fragment_number: self.fragment_number,
            data: self.data@,
        }
    }
}

impl AisParser {
    /// The reassembly buffer stays within the armor codec's reach and
    /// the last fragment index stays a single digit.
    pub closed spec fn wf(self) -> bool {
        self@.data.len() <= buffer_limit() && self@.fragment_number <= 9
    }

    /// Creates a parser with cleared reassembly state.
    pub fn new() -> (r: Self)
        ensures
            r@ == (ParserView { message_id: None, fragment_number: 0, data: Seq::<u8>::empty() }),
            r.wf(),
    {
        let r = AisParser { message_id: None, fragment_number: 0, data: Vec::new() };
        proof {
            assert(r@.data =~= Seq::<u8>::empty());
        }
        r
    }

    /// Checks that `s` continues the current group in order and appends
    /// its payload to the reassembly buffer.
    fn verify_and_extend_data(&mut self, s: &AisSentence) -> (r: Result<(), Error>)
        requires
            old(self).wf(),
            s.data@.len() <= buffer_limit(),
            s.fragment_number <= 9,
        ensures
            final(self).wf(),
            r is Ok <==> (s.message_id == old(self)@.message_id && s.fragment_number == old(
                self,
            )@.fragment_number + 1 && old(self)@.data.len() + s.data@.len() <= buffer_limit()),
            r is Ok ==> final(self)@ == (ParserView {
                message_id: old(self)@.message_id,
                fragment_number: s.fragment_number,
                data: old(self)@.data + s.data@,
            }),
            r is Err ==> final(self)@ == old(self)@,
            r is Err && !(s.message_id == old(self)@.message_id && s.fragment_number == old(
                self,
            )@.fragment_number + 1) ==> r == Err::<(), Error>(Error::FragmentSequence),
            r is Err && s.message_id == old(self)@.message_id && s.fragment_number == old(
                self,
            )@.fragment_number + 1 ==> (r matches Err(Error::Nmea { .. })),
    {
        let same_mid = match (self.message_id, s.message_id) {
            (None, None) => true,
            (Some(a), Some(b)) => a == b,
            _ => false,
        };
        if !same_mid {
            return Err(Error::FragmentSequence);
        }
        if s.fragment_number != self.fragment_number + 1 {
            return Err(Error::FragmentSequence);
        }
        let limit = (usize::MAX - 7) / 6;
        if s.data.len() > limit - self.data.len() {
            return Err(Error::Nmea { msg: "reassembly buffer overflow".to_owned() });
        }
        self.fragment_number = s.fragment_number;
        let mut i: usize = 0;
        let ghost base = self.data@;
        while i < s.data.len()
            invariant
                i <= s.data@.len(),
                self.data@ == base + s.data@.subrange(0, i as int),
                self.message_id == old(self).message_id,
                self.fragment_number == s.fragment_number,
            decreases s.data@.len() - i,
        {
            self.data.push(s.data[i]);
            proof {
                assert(base + s.data@.subrange(0, i + 1) =~= (base + s.data@.subrange(
                    0,
                    i as int,
                )).push(s.data@[i as int]));
            }
            i = i + 1;
        }
        proof {
            assert(s.data@.subrange(0, s.data@.len() as int) =~= s.data@);
        }
        Ok(())
    }

    /// Parses one NMEA line: frames it, validates its tag block and
    /// checksum, feeds it through fragment reassembly and, when a
    /// complete payload emerges and `decode` is set, un-armors it and
    /// decodes the inner message.
    ///
    /// The state moves exactly as `spec_step` says; the line is accepted
    /// only when its frame, tag block and checksum are all valid.
    pub fn parse(&mut self, line: &[u8], decode: bool) -> (r: Result<
        (Option<TagBlock>, AisFragments),
        Error,
    >)
        requires
            old(self).wf(),
            line@.len() * 8 <= usize::MAX,
        ensures
            final(self).wf(),
            final(self)@ == spec_step(old(self)@, line@),
            !frame_ok(line@) ==> (r matches Err(Error::Nmea { .. })),
            frame_ok(line@) && has_tag(line@) && !valid_utf8(tag_region(line@)) ==> (r matches
                Err(Error::Nmea { .. })),
            frame_ok(line@) && has_tag(line@) && valid_utf8(tag_region(line@)) && ({
                let t = spec_trimmed(tag_chars(line@));
                t.len() > 0 && !spec_tag_wf(t)
            }) ==> (r matches Err(Error::Nmea { .. })),
            frame_ok(line@) && has_tag(line@) && valid_utf8(tag_region(line@)) && ({
                let t = spec_trimmed(tag_chars(line@));
                t.len() > 0 && spec_tag_wf(t) && spec_tag_computed(t) != spec_tag_declared(t)
            }) ==> r == Err::<(Option<TagBlock>, AisFragments), Error>(
                Error::Checksum {
                    expected: spec_tag_declared(spec_trimmed(tag_chars(line@))),
                    found: spec_tag_computed(spec_trimmed(tag_chars(line@))),
                },
            ),
            frame_ok(line@) && spec_tag_ok(line@) && f_xor(line@) != f_checksum(line@) ==> r
                == Err::<(Option<TagBlock>, AisFragments), Error>(
                Error::Checksum { expected: f_checksum(line@), found: f_xor(line@) },
            ),
            (spec_step_out(old(self)@, line@) matches StepOutcome::Fragment) ==> (match r {
                Ok((tb, AisFragments::Incomplete(s))) => {
                    &&& tag_matches(tb, line@)
                    &&& sentence_matches_at(s, line@, f_start(line@).unwrap() + 1)
                    &&& s.message is None
                },
                _ => false,
            }),
            accepted(line@) && (spec_step_out(old(self)@, line@) matches StepOutcome::Rejected)
                && (f_fi(line@, f_start(line@).unwrap() + 1) == 1 || !(f_gid(
                line@,
                f_start(line@).unwrap() + 1,
            ) == old(self)@.message_id && f_fi(line@, f_start(line@).unwrap() + 1) == old(
                self,
            )@.fragment_number + 1)) ==> r == Err::<(Option<TagBlock>, AisFragments), Error>(
                Error::FragmentSequence,
            ),
            accepted(line@) && (spec_step_out(old(self)@, line@) matches StepOutcome::Rejected)
                ==> r is Err,
            match spec_step_out(old(self)@, line@) {
                StepOutcome::Done { data, fill } => ({
                let ua = crate::messages::spec_unarmor(data, fill as nat);
                if !decode {
                    match r {
                        Ok((tb, AisFragments::Complete(s))) => {
                            &&& tag_matches(tb, line@)
                            &&& sentence_matches(s, line@, data)
                            &&& s.message is None
                        },
                        _ => false,
                    }
                } else if !crate::messages::armor_ok(data) {
                    r matches Err(Error::ArmorOutOfRange { .. })
                } else if !crate::messages::spec_msg_ok(ua) {
                    r is Err
                } else {
                    match r {
                        Ok((tb, AisFragments::Complete(s))) => {
                            &&& tag_matches(tb, line@)
                            &&& sentence_matches(s, line@, data)
                            &&& (match s.message {
                                Some(m) => m.decodes(ua),
                                None => false,
                            })
                        },
                        _ => false,
                    }
                }
                }),
                _ => true,
            },
            r is Ok ==> accepted(line@),
    {
        let ghost l = line@;
        let (mut sentence, declared, xs, xe) = parse_nmea_sentence(line)?;
        let tag_block: Option<TagBlock>;
        if line[0] == 92 {
            let region = &line[0..xs - 1];
            proof {
                assert(region@ =~= tag_region(l));
            }
            match bytes_to_str(region) {
                Some(sreg) => {
                    proof {
                        vstd::utf8::encode_utf8_decode_utf8(sreg@);
                    }
                    tag_block = crate::messages::tag_block::parse_block(sreg)?;
                },
                None => {
                    return Err(Error::Nmea { msg: "tag block is not valid UTF-8".to_owned() });
                },
            }
        } else {
            tag_block = None;
        }
        let xor_region = &line[xs..xe];
        let computed = crate::messages::tag_block::xor_bytes(xor_region);
        proof {
            assert(xor_region@ =~= l.subrange(xs as int, xe as int));
        }
        if declared != computed {
            return Err(Error::Checksum { expected: declared, found: computed });
        }
        if sentence.num_fragments != 1 {
            if sentence.fragment_number == 1 {
                if self.fragment_number != 0 {
                    return Err(Error::FragmentSequence);
                }
                self.message_id = sentence.message_id;
                self.data = Vec::new();
            }
            match self.verify_and_extend_data(&sentence) {
                Ok(()) => {},
                Err(e) => {
                    return Err(e);
                },
            }
            if sentence.fragment_number < sentence.num_fragments {
                return Ok((tag_block, AisFragments::Incomplete(sentence)));
            }
            let mut buf: Vec<u8> = Vec::new();
            proof {
                assert(buf@ =~= Seq::<u8>::empty());
            }
            core::mem::swap(&mut buf, &mut self.data);
            sentence.data = buf;
            self.message_id = None;
            self.fragment_number = 0;
        }
        if decode {
            proof {
                assert(usize::MAX / 8 <= (usize::MAX - 7) / 6) by (nonlinear_arith)
                    requires
                        usize::MAX >= 63,
                ;
            }
            let unarmored = match messages::unarmor(
                sentence.data.as_slice(),
                sentence.fill_bit_count as usize,
            ) {
                Ok(u) => u,
                Err(e) => {
                    return Err(e);
                },
            };
            proof {
                assert(unarmored@.len() * 8 <= usize::MAX) by (nonlinear_arith)
                    requires
                        unarmored@.len() == (6 * sentence.data@.len() + 7) / 8,
                        sentence.data@.len() <= (usize::MAX - 7) / 6,
                ;
            }
            match messages::parse(unarmored.as_slice()) {
                Ok(m) => {
                    sentence.message = Some(m);
                },
                Err(e) => {
                    return Err(e);
                },
            }
        }
        Ok((tag_block, AisFragments::Complete(sentence)))
    }
}

impl Default for AisParser {
    /// A fresh parser with cleared reassembly state.
    fn default() -> (r: Self)
        ensures
            r@ == (ParserView { message_id: None, fragment_number: 0, data: Seq::<u8>::empty() }),
            r.wf(),
    {
        AisParser::new()
    }
}

/// The fields of `s` are exactly the frame fields of the line `l`, with
/// `data` as the carried payload.
pub open spec fn sentence_matches(s: AisSentence, l: Seq<u8>, data: Seq<u8>) -> bool {
    let a = f_start(l).unwrap() + 1;
    &&& s.talker_id == spec_talker_id(l.subrange(a, a + 2))
    &&& s.report_type == spec_report_type(l.subrange(a + 2, a + 5))
    &&& s.num_fragments == f_nf(l, a)
    &&& s.fragment_number == f_fi(l, a)
    &&& s.message_id == f_gid(l, a)
    &&& s.channel == f_channel(l, a)
    &&& s.data@ == data
    &&& s.fill_bit_count == f_fill(l, a)
    &&& s.message_type == bits_u(f_payload(l, a), 0, 6)
}

/// Fragment reassembly law: from an idle parser, two back-to-back
/// accepted fragments of the same group, numbered one and two of two,
/// first report an incomplete sentence and then a complete one whose
/// armored payload is the concatenation of both payloads, with the
/// second sentence's fill-bit count; the parser is idle again afterwards.
pub proof fn lemma_fragment_reassembly(v: ParserView, l1: Seq<u8>, l2: Seq<u8>)
    requires
        spec_idle(v),
        accepted(l1),
        accepted(l2),
        f_nf(l1, f_start(l1).unwrap() + 1) == 2,
        f_fi(l1, f_start(l1).unwrap() + 1) == 1,
        f_nf(l2, f_start(l2).unwrap() + 1) == 2,
        f_fi(l2, f_start(l2).unwrap() + 1) == 2,
        f_gid(l2, f_start(l2).unwrap() + 1) == f_gid(l1, f_start(l1).unwrap() + 1),
        f_payload(l1, f_start(l1).unwrap() + 1).len() + f_payload(
            l2,
            f_start(l2).unwrap() + 1,
        ).len() <= buffer_limit(),
    ensures
        spec_step_out(v, l1) is Fragment,
        spec_step_out(spec_step(v, l1), l2) == (StepOutcome::Done {
            data: f_payload(l1, f_start(l1).unwrap() + 1) + f_payload(
                l2,
                f_start(l2).unwrap() + 1,
            ),
            fill: f_fill(l2, f_start(l2).unwrap() + 1),
        }),
        spec_idle(spec_step(spec_step(v, l1), l2)),
{
}

/// A new first fragment arriving while a group is mid-assembly is
/// refused and leaves the reassembly state exactly as it was.
pub proof fn lemma_restart_is_rejected(v: ParserView, l: Seq<u8>)
    requires
        !spec_idle(v),
        accepted(l),
        f_nf(l, f_start(l).unwrap() + 1) > 1,
        f_fi(l, f_start(l).unwrap() + 1) == 1,
    ensures
        spec_step_out(v, l) is Rejected,
        spec_step(v, l) == v,
{
}

/// Checksum law: a line the sentence layer accepts has the XOR of the
/// bytes strictly between its start mark and its `*` equal to the two
/// declared hexadecimal digits.
pub proof fn lemma_checksum_verification(l: Seq<u8>)
    requires
        accepted(l),
    ensures
        f_xor(l) == f_checksum(l),
{
}

} // verus!

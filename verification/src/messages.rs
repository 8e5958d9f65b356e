//! Message layer: the armor codec and the per-type message decoders.
pub mod addressed_safety_related;
pub mod aid_to_navigation_report;
pub mod assignment_mode_command;
pub mod base_station_report;
pub mod binary_acknowledge;
pub mod binary_addressed;
pub mod binary_broadcast_message;
pub mod data_link_management_message;
pub mod dgnss_broadcast_binary_message;
pub mod extended_class_b_position_report;
pub mod group_assignment_command;
pub mod interrogation;
pub mod long_range_ais_broadcast;
pub mod navigation;
pub mod parsers;
pub mod position_report;
pub mod radio_status;
pub mod safety_related_acknowledgment;
pub mod safety_related_broadcast;
pub mod standard_aircraft_position_report;
pub mod standard_class_b_position_report;
pub mod static_and_voyage_related_data;
pub mod static_data_report;
pub mod tag_block;
pub mod types;
pub mod utc_date_inquiry;
pub mod utc_date_response;

pub use parsers::message_type;

use crate::bits::{bits_u, nth_bit, stream_bit};
use crate::errors::Error;
use vstd::prelude::*;

verus! {

/// True of bytes in the 6-bit armor alphabet: `'0'..='W'` and `` '`'..='w' ``.
pub open spec fn is_armor_byte(b: u8) -> bool {
    (48 <= b <= 87) || (96 <= b <= 119)
}

/// The 6-bit value carried by an armored byte.
pub open spec fn armor_val(b: u8) -> u8
    recommends
        is_armor_byte(b),
{
    if b >= 96 {
        (b - 56) as u8
    } else {
        (b - 48) as u8
    }
}

/// Bit `k` of a 6-bit value, counting from the most significant of the six.
pub open spec fn six_bit(v: u8, k: int) -> bool
    recommends
        v < 64,
        0 <= k < 6,
{
    (v >> ((5 - k) as u8)) & 1 == 1
}

/// Bit `i` of the unarmored stream obtained from armored bytes `d` with
/// `fill` fill bits: the bits of the 6-bit chunks in order, with the final
/// `fill` bits of the `6·len` chunk bits, and everything past them, cleared.
pub open spec fn unarmor_bit(d: Seq<u8>, fill: nat, i: int) -> bool {
    if 0 <= i < 6 * d.len() - fill {
        six_bit(armor_val(d[i / 6]), i % 6)
    } else {
        false
    }
}

/// The byte whose MSB-first bits are `s[0]`, ..., `s[7]`.
pub open spec fn byte_of_bits(s: Seq<bool>) -> u8
    recommends
        s.len() == 8,
{
    ((if s[0] {
        128int
    } else {
        0
    }) + (if s[1] {
        64int
    } else {
        0
    }) + (if s[2] {
        32int
    } else {
        0
    }) + (if s[3] {
        16int
    } else {
        0
    }) + (if s[4] {
        8int
    } else {
        0
    }) + (if s[5] {
        4int
    } else {
        0
    }) + (if s[6] {
        2int
    } else {
        0
    }) + (if s[7] {
        1int
    } else {
        0
    })) as u8
}

proof fn lemma_byte_of_bits(v: u8, b0: bool, b1: bool, b2: bool, b3: bool, b4: bool, b5: bool, b6: bool, b7: bool)
    by (bit_vector)
    requires
        v == (if b0 {
            128int
        } else {
            0
        }) + (if b1 {
            64int
        } else {
            0
        }) + (if b2 {
            32int
        } else {
            0
        }) + (if b3 {
            16int
        } else {
            0
        }) + (if b4 {
            8int
        } else {
            0
        }) + (if b5 {
            4int
        } else {
            0
        }) + (if b6 {
            2int
        } else {
            0
        }) + (if b7 {
            1int
        } else {
            0
        }),
    ensures
        ((v >> 7u8) & 1 == 1) == b0,
        ((v >> 6u8) & 1 == 1) == b1,
        ((v >> 5u8) & 1 == 1) == b2,
        ((v >> 4u8) & 1 == 1) == b3,
        ((v >> 3u8) & 1 == 1) == b4,
        ((v >> 2u8) & 1 == 1) == b5,
        ((v >> 1u8) & 1 == 1) == b6,
        ((v >> 0u8) & 1 == 1) == b7,
{
}

/// The MSB-first bits of `byte_of_bits(s)` are `s` itself.
proof fn lemma_nth_byte_of_bits(s: Seq<bool>, k: int)
    requires
        s.len() == 8,
        0 <= k < 8,
    ensures
        nth_bit(byte_of_bits(s), k) == s[k],
{
    lemma_byte_of_bits(byte_of_bits(s), s[0], s[1], s[2], s[3], s[4], s[5], s[6], s[7]);
}

/// The whole unarmored stream, as a byte sequence of length `⌈6·len/8⌉`.
pub open spec fn spec_unarmor(d: Seq<u8>, fill: nat) -> Seq<u8> {
    Seq::new(((6 * d.len() + 7) / 8) as nat, |j: int| byte_of_bits(Seq::new(8, |t: int| unarmor_bit(d, fill, 8 * j + t))))
}

/// Reading any bit of the unarmored stream gives the corresponding chunk
/// bit; in particular the trailing `fill` bits of the `6·len` chunk bits,
/// and all padding past them, are zero.
pub proof fn lemma_unarmor_stream_bit(d: Seq<u8>, fill: nat, i: int)
    requires
        0 <= i < 8 * spec_unarmor(d, fill).len(),
    ensures
        stream_bit(spec_unarmor(d, fill), i) == unarmor_bit(d, fill, i),
{
    let s = spec_unarmor(d, fill);
    vstd::arithmetic::div_mod::lemma_fundamental_div_mod(i, 8);
    lemma_nth_byte_of_bits(Seq::new(8, |t: int| unarmor_bit(d, fill, 8 * (i / 8) + t)), i % 8);
}

/// Converts 8-bit ASCII (armored) into the packed 6-bit (unarmored) form.
///
/// Each armored byte contributes six bits, MSB-first; the output is the
/// concatenation of those chunks padded with zero bits to a byte boundary,
/// with the final `fill_bits` bits of the chunk stream cleared to zero.
/// Fails with `ArmorOutOfRange` when a byte lies outside the armor alphabet.
pub fn unarmor(data: &[u8], fill_bits: usize) -> (r: Result<Vec<u8>, Error>)
    requires
        fill_bits <= 5,
        data@.len() == 0 ==> fill_bits == 0,
        data@.len() <= (usize::MAX - 7) / 6,
    ensures
        r is Ok <==> (forall|j: int| 0 <= j < data@.len() ==> is_armor_byte(data@[j])),
        r matches Ok(out) ==> out@ == spec_unarmor(data@, fill_bits as nat) && out@.len() == (6
            * data@.len() + 7) / 8,
        r matches Err(e) ==> exists|j: int|
            0 <= j < data@.len() && !is_armor_byte(data@[j]) && e == (Error::ArmorOutOfRange {
                value: data@[j],
            }),
{
    let n = data.len();
    let mut vals: Vec<u8> = Vec::new();
    let mut j: usize = 0;
    while j < n
        invariant
            j <= n,
            n == data@.len(),
            vals@.len() == j,
            forall|t: int| 0 <= t < j ==> is_armor_byte(#[trigger] data@[t]),
            forall|t: int| 0 <= t < j ==> vals@[t] == armor_val(data@[t]),
        decreases n - j,
    {
        let b = data[j];
        let v: u8;
        if 48 <= b && b <= 87 {
            v = b - 48;
        } else if 96 <= b && b <= 119 {
            v = b - 56;
        } else {
            return Err(Error::ArmorOutOfRange { value: b });
        }
        let ghost vold = vals@;
        vals.push(v);
        proof {
            assert(is_armor_byte(data@[j as int]));
            assert(v == armor_val(data@[j as int]));
            assert forall|t: int| 0 <= t < j + 1 implies is_armor_byte(#[trigger] data@[t]) && vals@[t]
                == armor_val(data@[t]) by {
                if t < j {
                    assert(vals@[t] == vold[t]);
                }
            }
        }
        j = j + 1;
    }
    let bit_len = n * 6;
    let byte_count = (bit_len + 7) / 8;
    let sig = bit_len - fill_bits;
    let mut out: Vec<u8> = Vec::new();
    let mut jb: usize = 0;
    while jb < byte_count
        invariant
            jb <= byte_count,
            n == data@.len(),
            n <= (usize::MAX - 7) / 6,
            bit_len == n * 6,
            byte_count == (bit_len + 7) / 8,
            fill_bits <= 5,
            n == 0 ==> fill_bits == 0,
            sig == bit_len - fill_bits,
            vals@.len() == n,
            forall|t: int| 0 <= t < n ==> is_armor_byte(#[trigger] data@[t]),
            forall|t: int| 0 <= t < n ==> vals@[t] == armor_val(data@[t]),
            out@.len() == jb,
            forall|t: int| 0 <= t < jb ==> out@[t] == spec_unarmor(data@, fill_bits as nat)[t],
        decreases byte_count - jb,
    {
        let ghost gd = data@;
        let ghost gf = fill_bits as nat;
        let x0 = unarmor_bit_at(&vals, sig, 8 * jb, Ghost(gd), Ghost(gf));
        let x1 = unarmor_bit_at(&vals, sig, 8 * jb + 1, Ghost(gd), Ghost(gf));
        let x2 = unarmor_bit_at(&vals, sig, 8 * jb + 2, Ghost(gd), Ghost(gf));
        let x3 = unarmor_bit_at(&vals, sig, 8 * jb + 3, Ghost(gd), Ghost(gf));
        let x4 = unarmor_bit_at(&vals, sig, 8 * jb + 4, Ghost(gd), Ghost(gf));
        let x5 = unarmor_bit_at(&vals, sig, 8 * jb + 5, Ghost(gd), Ghost(gf));
        let x6 = unarmor_bit_at(&vals, sig, 8 * jb + 6, Ghost(gd), Ghost(gf));
        let x7 = unarmor_bit_at(&vals, sig, 8 * jb + 7, Ghost(gd), Ghost(gf));
        let byte: u8 = (if x0 {
            128
        } else {
            0
        }) + (if x1 {
            64
        } else {
            0
        }) + (if x2 {
            32
        } else {
            0
        }) + (if x3 {
            16
        } else {
            0
        }) + (if x4 {
            8
        } else {
            0
        }) + (if x5 {
            4
        } else {
            0
        }) + (if x6 {
            2
        } else {
            0
        }) + (if x7 {
            1
        } else {
            0
        });
        proof {
            let sb = Seq::new(8, |t: int| unarmor_bit(data@, fill_bits as nat, 8 * jb + t));
            assert(byte == byte_of_bits(sb));
        }
        out.push(byte);
        jb = jb + 1;
    }
    proof {
        assert(out@ =~= spec_unarmor(data@, fill_bits as nat));
    }
    Ok(out)
}

/// Bit `i` of the chunk stream built from the 6-bit values `vals`, with
/// bits at or past `sig` reading as zero.
fn unarmor_bit_at(vals: &Vec<u8>, sig: usize, i: usize, Ghost(d): Ghost<Seq<u8>>, Ghost(fill): Ghost<nat>) -> (r: bool)
    requires
        d.len() == vals@.len(),
        forall|t: int| 0 <= t < d.len() ==> vals@[t] == armor_val(d[t]),
        fill <= 6 * d.len(),
        sig == 6 * d.len() - fill,
    ensures
        r == unarmor_bit(d, fill, i as int),
{
    if i < sig {
        proof {
            assert(i / 6 < vals@.len()) by (nonlinear_arith)
                requires
                    i < sig,
                    sig <= vals@.len() * 6,
            ;
        }
        let v = vals[i / 6];
        let k = i % 6;
        ((v >> ((5 - k) as u8)) & 1) == 1
    } else {
        false
    }
}

/// A message type that can be decoded from an unarmored bitstream.
pub trait AisMessageType<'a>: Sized {
    /// The common name of the message type, as a sequence of characters.
    spec fn spec_name() -> Seq<char>;

    /// The common name for the message type.
    fn name(&self) -> (r: &'static str)
        ensures
            r@ == Self::spec_name(),
    ;

    /// Converts a raw unarmored bitstream into the structured message.
    fn parse(data: &'a [u8]) -> (r: Result<Self, Error>)
        requires
            data@.len() * 8 <= usize::MAX,
    ;
}

/// All structured messages this library recognises.
#[derive(Debug, PartialEq)]
pub enum AisMessage {
    PositionReport(position_report::PositionReport),
    BaseStationReport(base_station_report::BaseStationReport),
    BinaryBroadcastMessage(binary_broadcast_message::BinaryBroadcastMessage),
    Interrogation(interrogation::Interrogation),
    StaticAndVoyageRelatedData(static_and_voyage_related_data::StaticAndVoyageRelatedData),
    DgnssBroadcastBinaryMessage(dgnss_broadcast_binary_message::DgnssBroadcastBinaryMessage),
    StandardClassBPositionReport(standard_class_b_position_report::StandardClassBPositionReport),
    ExtendedClassBPositionReport(extended_class_b_position_report::ExtendedClassBPositionReport),
    DataLinkManagementMessage(data_link_management_message::DataLinkManagementMessage),
    AidToNavigationReport(aid_to_navigation_report::AidToNavigationReport),
    StaticDataReport(static_data_report::StaticDataReport),
    UtcDateResponse(utc_date_response::UtcDateResponse),
    StandardAircraftPositionReport(standard_aircraft_position_report::SARPositionReport),
    AssignmentModeCommand(assignment_mode_command::AssignmentModeCommand),
    GroupAssignmentCommand(group_assignment_command::GroupAssignmentCommand),
    BinaryAcknowledgeMessage(binary_acknowledge::BinaryAcknowledge),
    UtcDateInquiry(utc_date_inquiry::UtcDateInquiry),
    AddressedSafetyRelatedMessage(addressed_safety_related::AddressedSafetyRelatedMessage),
    SafetyRelatedBroadcastMessage(safety_related_broadcast::SafetyRelatedBroadcastMessage),
    SafetyRelatedAcknowledgment(safety_related_acknowledgment::SafetyRelatedAcknowledge),
    LongRangeAisBroadcastMessage(long_range_ais_broadcast::LongRangeAisBroadcastMessage),
    BinaryAddressedMessage(binary_addressed::BinaryAddressedMessage),
}

/// True when every byte of `d` lies in the armor alphabet.
pub open spec fn armor_ok(d: Seq<u8>) -> bool {
    forall|j: int| 0 <= j < d.len() ==> is_armor_byte(#[trigger] d[j])
}

/// True of the 6-bit type codes that map to a decoder.
pub open spec fn spec_implemented(t: nat) -> bool {
    (1 <= t <= 21) || t == 23 || t == 24 || t == 27
}

/// Whether decoding the bitstream `d` succeeds: its type must be
/// implemented and the stream long enough for that type's layout.
pub open spec fn spec_msg_ok(d: Seq<u8>) -> bool {
    let t = bits_u(d, 0, 6);
    let bits = 8 * (d.len() as int);
    &&& d.len() >= 1
    &&& spec_implemented(t)
    &&& if 1 <= t <= 4 || t == 11 || t == 18 {
        bits >= 168
    } else if t == 5 {
        bits >= 302
    } else if t == 6 {
        bits >= 88
    } else if t == 7 || t == 13 {
        bits >= 72
    } else if t == 8 {
        bits >= 56
    } else if t == 9 {
        bits >= 167
    } else if t == 10 {
        bits >= 72
    } else if t == 12 {
        bits >= 78
    } else if t == 14 {
        bits >= 46
    } else if t == 15 {
        interrogation::spec_interrogation_ok(d)
    } else if t == 16 {
        bits >= 92
    } else if t == 17 {
        bits >= 120
    } else if t == 19 {
        bits >= 312
    } else if t == 20 {
        bits >= 70
    } else if t == 21 {
        bits >= 272
    } else if t == 23 {
        bits >= 160
    } else if t == 24 {
        bits >= static_data_report::StaticDataReport::spec_needed(bits_u(d, 38, 2))
    } else {
        bits >= 95
    }
}

impl AisMessage {
    /// The variant matches the 6-bit type at the head of `d` and its
    /// record decodes every bit field of `d`.
    pub open spec fn decodes(self, d: Seq<u8>) -> bool {
        let t = bits_u(d, 0, 6);
        match self {
            AisMessage::PositionReport(m) => (1 <= t <= 3) && m.decodes(d),
            AisMessage::BaseStationReport(m) => t == 4 && m.decodes(d),
            AisMessage::StaticAndVoyageRelatedData(m) => t == 5 && m.decodes(d),
            AisMessage::BinaryAddressedMessage(m) => t == 6 && m.decodes(d),
            AisMessage::BinaryAcknowledgeMessage(m) => t == 7 && m.decodes(d),
            AisMessage::BinaryBroadcastMessage(m) => t == 8 && m.decodes(d),
            AisMessage::StandardAircraftPositionReport(m) => t == 9 && m.decodes(d),
            AisMessage::UtcDateInquiry(m) => t == 10 && m.decodes(d),
            AisMessage::UtcDateResponse(m) => t == 11 && m.decodes(d),
            AisMessage::AddressedSafetyRelatedMessage(m) => t == 12 && m.decodes(d),
            AisMessage::SafetyRelatedAcknowledgment(m) => t == 13 && m.decodes(d),
            AisMessage::SafetyRelatedBroadcastMessage(m) => t == 14 && m.decodes(d),
            AisMessage::Interrogation(m) => t == 15 && m.decodes(d),
            AisMessage::AssignmentModeCommand(m) => t == 16 && m.decodes(d),
            AisMessage::DgnssBroadcastBinaryMessage(m) => t == 17 && m.decodes(d),
            AisMessage::StandardClassBPositionReport(m) => t == 18 && m.decodes(d),
            AisMessage::ExtendedClassBPositionReport(m) => t == 19 && m.decodes(d),
            AisMessage::DataLinkManagementMessage(m) => t == 20 && m.decodes(d),
            AisMessage::AidToNavigationReport(m) => t == 21 && m.decodes(d),
            AisMessage::GroupAssignmentCommand(m) => t == 23 && m.decodes(d),
            AisMessage::StaticDataReport(m) => t == 24 && m.decodes(d),
            AisMessage::LongRangeAisBroadcastMessage(m) => t == 27 && m.decodes(d),
        }
    }
}

/// Dispatches an unarmored bitstream to the decoder named by its leading
/// 6-bit message type and returns the structured message.
///
/// Succeeds exactly when the type is implemented and the stream holds a
/// full record of that type; an unimplemented type is reported as
/// `UnimplementedType`, a short stream as `UnexpectedEnd`.
pub fn parse(unarmored: &[u8]) -> (r: Result<AisMessage, Error>)
    requires
        unarmored@.len() * 8 <= usize::MAX,
    ensures
        r is Ok <==> spec_msg_ok(unarmored@),
        r matches Ok(m) ==> m.decodes(unarmored@),
        r is Err ==> r == Err::<AisMessage, Error>(Error::UnexpectedEnd) || r == Err::<
            AisMessage,
            Error,
        >(Error::UnimplementedType { value: bits_u(unarmored@, 0, 6) as u8 }),
        unarmored@.len() >= 1 && !spec_implemented(bits_u(unarmored@, 0, 6)) <==> r == Err::<
            AisMessage,
            Error,
        >(Error::UnimplementedType { value: bits_u(unarmored@, 0, 6) as u8 }),
{
    proof {
        crate::bits::lemma_bits_u_bound(unarmored@, 0, 6);
        vstd::arithmetic::power2::lemma2_to64();
    }
    let t = parsers::message_type(unarmored)?;
    if 1 <= t && t <= 3 {
        Ok(AisMessage::PositionReport(position_report::PositionReport::parse(unarmored)?))
    } else if t == 4 {
        Ok(AisMessage::BaseStationReport(base_station_report::BaseStationReport::parse(unarmored)?))
    } else if t == 5 {
        Ok(
            AisMessage::StaticAndVoyageRelatedData(
                static_and_voyage_related_data::StaticAndVoyageRelatedData::parse(unarmored)?,
            ),
        )
    } else if t == 6 {
        Ok(
            AisMessage::BinaryAddressedMessage(
                binary_addressed::BinaryAddressedMessage::parse(unarmored)?,
            ),
        )
    } else if t == 7 {
        Ok(
            AisMessage::BinaryAcknowledgeMessage(
                binary_acknowledge::BinaryAcknowledge::parse(unarmored)?,
            ),
        )
    } else if t == 8 {
        Ok(
            AisMessage::BinaryBroadcastMessage(
                binary_broadcast_message::BinaryBroadcastMessage::parse(unarmored)?,
            ),
        )
    } else if t == 9 {
        Ok(
            AisMessage::StandardAircraftPositionReport(
                standard_aircraft_position_report::SARPositionReport::parse(unarmored)?,
            ),
        )
    } else if t == 10 {
        Ok(AisMessage::UtcDateInquiry(utc_date_inquiry::UtcDateInquiry::parse(unarmored)?))
    } else if t == 11 {
        Ok(AisMessage::UtcDateResponse(utc_date_response::UtcDateResponse::parse(unarmored)?))
    } else if t == 12 {
        Ok(
            AisMessage::AddressedSafetyRelatedMessage(
                addressed_safety_related::AddressedSafetyRelatedMessage::parse(unarmored)?,
            ),
        )
    } else if t == 13 {
        Ok(
            AisMessage::SafetyRelatedAcknowledgment(
                safety_related_acknowledgment::SafetyRelatedAcknowledge::parse(unarmored)?,
            ),
        )
    } else if t == 14 {
        Ok(
            AisMessage::SafetyRelatedBroadcastMessage(
                safety_related_broadcast::SafetyRelatedBroadcastMessage::parse(unarmored)?,
            ),
        )
    } else if t == 15 {
        Ok(AisMessage::Interrogation(interrogation::Interrogation::parse(unarmored)?))
    } else if t == 16 {
        Ok(
            AisMessage::AssignmentModeCommand(
                assignment_mode_command::AssignmentModeCommand::parse(unarmored)?,
            ),
        )
    } else if t == 17 {
        Ok(
            AisMessage::DgnssBroadcastBinaryMessage(
                dgnss_broadcast_binary_message::DgnssBroadcastBinaryMessage::parse(unarmored)?,
            ),
        )
    } else if t == 18 {
        Ok(
            AisMessage::StandardClassBPositionReport(
                standard_class_b_position_report::StandardClassBPositionReport::parse(unarmored)?,
            ),
        )
    } else if t == 19 {
        Ok(
            AisMessage::ExtendedClassBPositionReport(
                extended_class_b_position_report::ExtendedClassBPositionReport::parse(unarmored)?,
            ),
        )
    } else if t == 20 {
        Ok(
            AisMessage::DataLinkManagementMessage(
                data_link_management_message::DataLinkManagementMessage::parse(unarmored)?,
            ),
        )
    } else if t == 21 {
        Ok(
            AisMessage::AidToNavigationReport(
                aid_to_navigation_report::AidToNavigationReport::parse(unarmored)?,
            ),
        )
    } else if t == 23 {
        Ok(
            AisMessage::GroupAssignmentCommand(
                group_assignment_command::GroupAssignmentCommand::parse(unarmored)?,
            ),
        )
    } else if t == 24 {
        Ok(AisMessage::StaticDataReport(static_data_report::StaticDataReport::parse(unarmored)?))
    } else if t == 27 {
        Ok(
            AisMessage::LongRangeAisBroadcastMessage(
                long_range_ais_broadcast::LongRangeAisBroadcastMessage::parse(unarmored)?,
            ),
        )
    } else {
        Err(Error::UnimplementedType { value: t })
    }
}

} // verus!

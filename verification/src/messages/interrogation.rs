//! Interrogation (type 15).
//!
//! The wire form carries one or two interrogated stations, each with one
//! or two requested messages; which parts are present is decided by how
//! many bits remain at each step. The three-station form of the standard
//! is not decoded.
use crate::bits::{bits_u, take_u};
use crate::errors::Error;
use vstd::prelude::*;

verus! {

/// One requested message: its type and an optional reply slot offset.
#[derive(Debug, PartialEq, Eq)]
pub struct Message {
    pub message_type: u8,
    pub slot_offset: Option<u16>,
}

/// Where the message starting at `pos` ends: 18 bits when a slot offset
/// fits after the type, 6 bits otherwise.
pub open spec fn spec_message_end(d: Seq<u8>, pos: int) -> int {
    if 8 * d.len() - (pos + 6) >= 12 {
        pos + 18
    } else {
        pos + 6
    }
}

/// The slot offset carried at `pos`, with 0 meaning none.
pub open spec fn spec_slot_offset(v: nat) -> Option<u16>
    recommends
        v < 4096,
{
    if v == 0 {
        None
    } else {
        Some(v as u16)
    }
}

impl Message {
    /// Every field of `self` is the decoding of the message at `pos`.
    pub open spec fn decodes_at(self, d: Seq<u8>, pos: int) -> bool {
        &&& self.message_type == bits_u(d, pos, 6)
        &&& self.slot_offset == (if 8 * d.len() - (pos + 6) >= 12 {
            spec_slot_offset(bits_u(d, pos + 6, 12))
        } else {
            None::<u16>
        })
    }

    /// True when the message at `pos` reads as all zero: no type and no
    /// slot offset.
    pub open spec fn spec_is_zero(d: Seq<u8>, pos: int) -> bool {
        bits_u(d, pos, 6) == 0 && (8 * d.len() - (pos + 6) >= 12 ==> bits_u(d, pos + 6, 12) == 0)
    }

    /// Decodes one requested message at `pos`.
    pub fn parse(data: &[u8], pos: usize) -> (r: Result<(usize, Message), Error>)
        requires
            data@.len() * 8 <= usize::MAX,
        ensures
            r is Ok <==> pos + 6 <= data@.len() * 8,
            r matches Ok(p) ==> p.0 == spec_message_end(data@, pos as int) && p.1.decodes_at(
                data@,
                pos as int,
            ),
            r is Err ==> r == Err::<(usize, Message), Error>(Error::UnexpectedEnd),
    {
        let total = data.len() * 8;
        let (p, message_type) = take_u(data, pos, 6)?;
        proof {
            crate::bits::lemma_bits_u_bound(data@, pos as int, 6);
            crate::bits::lemma_bits_u_bound(data@, pos as int + 6, 12);
            vstd::arithmetic::power2::lemma2_to64();
        }
        if total - p >= 12 {
            let (p, slot) = take_u(data, p, 12)?;
            let slot_offset = if slot == 0 {
                None
            } else {
                Some(slot as u16)
            };
            Ok((p, Message { message_type: message_type as u8, slot_offset }))
        } else {
            Ok((p, Message { message_type: message_type as u8, slot_offset: None }))
        }
    }
}

/// Where the station starting at `pos` ends: the MMSI, a first message,
/// and, when at least eight bits remain, two spare bits and a second
/// message.
pub open spec fn spec_station_end(d: Seq<u8>, pos: int) -> int {
    let q = spec_message_end(d, pos + 30);
    if 8 * d.len() - q >= 8 {
        spec_message_end(d, q + 2)
    } else {
        q
    }
}

/// One interrogated station and the messages requested of it.
#[derive(Debug, PartialEq, Eq)]
pub struct Station {
    pub mmsi: u32,
    pub messages: Vec<Message>,
}

impl Station {
    /// Every field of `self` is the decoding of the station at `pos`; an
    /// all-zero second message is dropped from the list.
    pub open spec fn decodes_at(self, d: Seq<u8>, pos: int) -> bool {
        let q = spec_message_end(d, pos + 30);
        &&& self.mmsi == bits_u(d, pos, 30)
        &&& self.messages@.len() >= 1
        &&& self.messages@[0].decodes_at(d, pos + 30)
        &&& if 8 * d.len() - q >= 8 && !Message::spec_is_zero(d, q + 2) {
            &&& self.messages@.len() == 2
            &&& self.messages@[1].decodes_at(d, q + 2)
        } else {
            self.messages@.len() == 1
        }
    }

    /// Decodes one interrogated station at `pos`.
    pub fn parse(data: &[u8], pos: usize) -> (r: Result<(usize, Station), Error>)
        requires
            data@.len() * 8 <= usize::MAX,
        ensures
            r is Ok <==> pos + 36 <= data@.len() * 8,
            r matches Ok(p) ==> p.0 == spec_station_end(data@, pos as int) && p.1.decodes_at(
                data@,
                pos as int,
            ),
            r is Err ==> r == Err::<(usize, Station), Error>(Error::UnexpectedEnd),
    {
        let total = data.len() * 8;
        let (p, mmsi) = take_u(data, pos, 30)?;
        let mut messages: Vec<Message> = Vec::new();
        let (p, first) = Message::parse(data, p)?;
        messages.push(first);
        proof {
            crate::bits::lemma_bits_u_bound(data@, pos as int + 30, 6);
        }
        if total - p >= 8 {
            let (q, _spare) = take_u(data, p, 2)?;
            let (q, second) = Message::parse(data, q)?;
            proof {
                crate::bits::lemma_bits_u_bound(data@, p as int + 2, 6);
                crate::bits::lemma_bits_u_bound(data@, p as int + 8, 12);
            }
            if second.message_type != 0 || second.slot_offset.is_some() {
                messages.push(second);
            }
            Ok((q, Station { mmsi, messages }))
        } else {
            Ok((p, Station { mmsi, messages }))
        }
    }
}

/// A request that one or two stations transmit specific message types.
#[derive(Debug, PartialEq, Eq)]
pub struct Interrogation {
    pub message_type: u8,
    pub repeat_indicator: u8,
    pub mmsi: u32,
    pub stations: Vec<Station>,
}

/// Whether an interrogation parse of a stream of `bits` bits succeeds:
/// the prelude and the first station must fit, and when enough bits
/// remain to start a second station, that station and the two spare bits
/// after it must fit as well.
pub open spec fn spec_interrogation_ok(d: Seq<u8>) -> bool {
    let bits = 8 * (d.len() as int);
    let r1 = spec_station_end(d, 40);
    &&& bits >= 76
    &&& (bits - r1 >= 30 ==> bits >= r1 + 36 && bits >= spec_station_end(d, r1) + 2)
}

impl Interrogation {
    /// Every field of `self` is the decoding of its bit field in `d`; a
    /// second station is present exactly when thirty or more bits follow
    /// the first.
    pub open spec fn decodes(self, d: Seq<u8>) -> bool {
        let r1 = spec_station_end(d, 40);
        &&& self.message_type == bits_u(d, 0, 6)
        &&& self.repeat_indicator == bits_u(d, 6, 2)
        &&& self.mmsi == bits_u(d, 8, 30)
        &&& self.stations@.len() >= 1
        &&& self.stations@[0].decodes_at(d, 40)
        &&& if 8 * d.len() - r1 >= 30 {
            &&& self.stations@.len() == 2
            &&& self.stations@[1].decodes_at(d, r1)
        } else {
            self.stations@.len() == 1
        }
    }

    /// Decodes an interrogation from an unarmored bitstream.
    pub fn parse(data: &[u8]) -> (r: Result<Self, Error>)
        requires
            data@.len() * 8 <= usize::MAX,
        ensures
            r is Ok <==> spec_interrogation_ok(data@),
            r matches Ok(m) ==> m.decodes(data@),
            r is Err ==> r == Err::<Self, Error>(Error::UnexpectedEnd),
    {
        proof {
            vstd::arithmetic::power2::lemma2_to64();
        }
        let total = data.len() * 8;
        let (p, message_type) = take_u(data, 0, 6)?;
        let (p, repeat_indicator) = take_u(data, p, 2)?;
        let (p, mmsi) = take_u(data, p, 30)?;
        let (p, _spare) = take_u(data, p, 2)?;
        proof {
            crate::bits::lemma_bits_u_bound(data@, 0, 6);
            crate::bits::lemma_bits_u_bound(data@, 6, 2);
        }
        let mut stations: Vec<Station> = Vec::new();
        let (p, first) = Station::parse(data, p)?;
        stations.push(first);
        if total - p >= 30 {
            let (q, second) = Station::parse(data, p)?;
            stations.push(second);
            let (_q, _spare2) = take_u(data, q, 2)?;
        }
        Ok(
            Interrogation {
                message_type: message_type as u8,
                repeat_indicator: repeat_indicator as u8,
                mmsi,
                stations,
            },
        )
    }
}

impl<'a> crate::messages::AisMessageType<'a> for Interrogation {
    open spec fn spec_name() -> Seq<char> {
        "Interrogation"@
    }

    fn name(&self) -> (r: &'static str) {
        "Interrogation"
    }

    fn parse(data: &'a [u8]) -> (r: Result<Self, Error>) {
        Interrogation::parse(data)
    }
}

} // verus!

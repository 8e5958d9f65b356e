//! Static Data Report (type 24).
use crate::bits::{bits_u, take_u};
use crate::errors::Error;
use crate::messages::parsers::{parse_6bit_ascii, remaining_bits, sixbit_text};
use crate::messages::types::{spec_ship_type, ShipType};
use vstd::prelude::*;

verus! {

/// The two periodic halves of a static data report.
#[derive(Debug, PartialEq)]
pub enum MessagePart {
    /// Part A carries just the vessel name.
    PartA { vessel_name: String },
    /// Part B carries the static particulars. The 24-bit region after the
    /// vendor ID is presented both ways that senders use it: as the tail
    /// of a long vendor string and as a model code with a serial number.
    PartB {
        ship_type: Option<ShipType>,
        vendor_id: String,
        model_serial: String,
        unit_model_code: u8,
        serial_number: u32,
        callsign: String,
        dimension_to_bow: u16,
        dimension_to_stern: u16,
        dimension_to_port: u16,
        dimension_to_starboard: u16,
    },
    /// A part number other than 0 or 1.
    Unknown(u8),
}

/// A static data report, split into its part A or part B content.
#[derive(Debug, PartialEq)]
pub struct StaticDataReport {
    pub message_type: u8,
    pub repeat_indicator: u8,
    pub mmsi: u32,
    pub message_part: MessagePart,
}

impl StaticDataReport {
    /// Every field of `self` is the decoding of its bit field in `d`,
    /// with the part selected by the 2-bit part number at bit 38.
    pub open spec fn decodes(self, d: Seq<u8>) -> bool {
        &&& self.message_type == bits_u(d, 0, 6)
        &&& self.repeat_indicator == bits_u(d, 6, 2)
        &&& self.mmsi == bits_u(d, 8, 30)
        &&& match self.message_part {
            MessagePart::PartA { vessel_name } => {
                &&& bits_u(d, 38, 2) == 0
                &&& vessel_name@ == sixbit_text(d, 40, 20)
            },
            MessagePart::PartB {
                ship_type,
                vendor_id,
                model_serial,
                unit_model_code,
                serial_number,
                callsign,
                dimension_to_bow,
                dimension_to_stern,
                dimension_to_port,
                dimension_to_starboard,
            } => {
                &&& bits_u(d, 38, 2) == 1
                &&& ship_type == spec_ship_type(bits_u(d, 40, 8))
                &&& vendor_id@ == sixbit_text(d, 48, 3)
                &&& model_serial@ == sixbit_text(d, 66, 4)
                &&& unit_model_code == bits_u(d, 66, 4)
                &&& serial_number == bits_u(d, 70, 20)
                &&& callsign@ == sixbit_text(d, 90, 7)
                &&& dimension_to_bow == bits_u(d, 132, 9)
                &&& dimension_to_stern == bits_u(d, 141, 9)
                &&& dimension_to_port == bits_u(d, 150, 6)
                &&& dimension_to_starboard == bits_u(d, 156, 6)
            },
            MessagePart::Unknown(n) => {
                &&& bits_u(d, 38, 2) == n
                &&& n >= 2
            },
        }
    }

    /// The stream length a report needs once its part number is `part`:
    /// 160 bits for part A, 168 for part B, the 40-bit prelude otherwise.
    pub open spec fn spec_needed(part: nat) -> int {
        if part == 0 {
            160
        } else if part == 1 {
            168
        } else {
            40
        }
    }

    /// Decodes a static data report from an unarmored bitstream.
    pub fn parse(data: &[u8]) -> (r: Result<Self, Error>)
        requires
            data@.len() * 8 <= usize::MAX,
        ensures
            r is Ok <==> data@.len() * 8 >= 40 && data@.len() * 8 >= Self::spec_needed(
                bits_u(data@, 38, 2),
            ),
            r matches Ok(m) ==> m.decodes(data@),
            r is Err ==> r == Err::<Self, Error>(Error::UnexpectedEnd),
    {
        proof {
            vstd::arithmetic::power2::lemma2_to64();
        }
        let total = data.len() * 8;
        let (p, message_type) = take_u(data, 0, 6)?;
        let (p, repeat_indicator) = take_u(data, p, 2)?;
        let (p, mmsi) = take_u(data, p, 30)?;
        let (p, part_number) = take_u(data, p, 2)?;
        proof {
            crate::bits::lemma_bits_u_bound(data@, 0, 6);
            crate::bits::lemma_bits_u_bound(data@, 6, 2);
            crate::bits::lemma_bits_u_bound(data@, 38, 2);
        }
        let message_part: MessagePart;
        if part_number == 0 {
            let (q, vessel_name) = parse_6bit_ascii(data, p, 120)?;
            let rem = remaining_bits(data, q);
            let spare = if rem < 7 {
                rem
            } else {
                7
            };
            let (_q, _spare) = take_u(data, q, spare)?;
            message_part = MessagePart::PartA { vessel_name };
        } else if part_number == 1 {
            let (p, ship_type) = take_u(data, p, 8)?;
            let (p, vendor_id) = parse_6bit_ascii(data, p, 18)?;
            let (_, model_serial) = parse_6bit_ascii(data, p, 24)?;
            let (p, unit_model_code) = take_u(data, p, 4)?;
            let (p, serial_number) = take_u(data, p, 20)?;
            let (p, callsign) = parse_6bit_ascii(data, p, 42)?;
            let (p, dimension_to_bow) = take_u(data, p, 9)?;
            let (p, dimension_to_stern) = take_u(data, p, 9)?;
            let (p, dimension_to_port) = take_u(data, p, 6)?;
            let (p, dimension_to_starboard) = take_u(data, p, 6)?;
            let (_p, _spare) = take_u(data, p, 6)?;
            proof {
                crate::bits::lemma_bits_u_bound(data@, 40, 8);
                crate::bits::lemma_bits_u_bound(data@, 66, 4);
                crate::bits::lemma_bits_u_bound(data@, 132, 9);
                crate::bits::lemma_bits_u_bound(data@, 141, 9);
                crate::bits::lemma_bits_u_bound(data@, 150, 6);
                crate::bits::lemma_bits_u_bound(data@, 156, 6);
            }
            message_part = MessagePart::PartB {
                ship_type: ShipType::parse(ship_type as u8),
                vendor_id,
                model_serial,
                unit_model_code: unit_model_code as u8,
                serial_number,
                callsign,
                dimension_to_bow: dimension_to_bow as u16,
                dimension_to_stern: dimension_to_stern as u16,
                dimension_to_port: dimension_to_port as u16,
                dimension_to_starboard: dimension_to_starboard as u16,
            };
        } else {
            message_part = MessagePart::Unknown(part_number as u8);
        }
        Ok(
            StaticDataReport {
                message_type: message_type as u8,
                repeat_indicator: repeat_indicator as u8,
                mmsi,
                message_part,
            },
        )
    }
}

impl<'a> crate::messages::AisMessageType<'a> for StaticDataReport {
    open spec fn spec_name() -> Seq<char> {
        "Static Data Report"@
    }

    fn name(&self) -> (r: &'static str) {
        "Static Data Report"
    }

    fn parse(data: &'a [u8]) -> (r: Result<Self, Error>) {
        StaticDataReport::parse(data)
    }
}

} // verus!

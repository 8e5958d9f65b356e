//! Addressed Safety-Related Message (type 12).
use crate::bits::{bits_u, take_u};
use crate::errors::Error;
use crate::messages::parsers::{parse_6bit_ascii, sixbit_text};
use vstd::prelude::*;

verus! {

/// A safety-related text message addressed to one station.
#[derive(Debug, PartialEq)]
pub struct AddressedSafetyRelatedMessage {
    pub message_type: u8,
    pub repeat_indicator: u8,
    pub mmsi: u32,
    pub seqno: u8,
    pub dest_mmsi: u32,
    pub retransmit: bool,
    pub text: String,
}

impl AddressedSafetyRelatedMessage {
    /// Every field of `self` is the decoding of its bit field in `d`; the
    /// text covers the whole remainder, rounded down to six-bit
    /// characters.
    pub open spec fn decodes(self, d: Seq<u8>) -> bool {
        &&& self.message_type == bits_u(d, 0, 6)
        &&& self.repeat_indicator == bits_u(d, 6, 2)
        &&& self.mmsi == bits_u(d, 8, 30)
        &&& self.seqno == bits_u(d, 38, 2)
        &&& self.dest_mmsi == bits_u(d, 40, 30)
        &&& self.retransmit == (bits_u(d, 70, 1) == 1)
        &&& self.text@ == sixbit_text(d, 72, (((8 * d.len() - 72) / 6)) as nat)
    }

    /// Decodes an addressed safety-related message from an unarmored
    /// bitstream: the 72-bit prelude and at least one six-bit text
    /// character.
    pub fn parse(data: &[u8]) -> (r: Result<Self, Error>)
        requires
            data@.len() * 8 <= usize::MAX,
        ensures
            r is Ok <==> data@.len() * 8 >= 78,
            r matches Ok(m) ==> m.decodes(data@),
            r is Err ==> r == Err::<Self, Error>(Error::UnexpectedEnd),
    {
        proof {
            vstd::arithmetic::power2::lemma2_to64();
        }
        let total = data.len() * 8;
        let (p, message_type) = take_u(data, 0, 6)?;
        let (p, repeat_indicator) = take_u(data, p, 2)?;
        let (p, mmsi) = take_u(data, p, 30)?;
        let (p, seqno) = take_u(data, p, 2)?;
        let (p, dest_mmsi) = take_u(data, p, 30)?;
        let (p, retransmit) = take_u(data, p, 1)?;
        let (p, _spare) = take_u(data, p, 1)?;
        if total - p < 6 {
            return Err(Error::UnexpectedEnd);
        }
        proof {
            crate::bits::lemma_bits_u_bound(data@, 0, 6);
            crate::bits::lemma_bits_u_bound(data@, 6, 2);
            crate::bits::lemma_bits_u_bound(data@, 38, 2);
            crate::bits::lemma_bits_u_bound(data@, 70, 1);
        }
        let (_p, text) = parse_6bit_ascii(data, p, total - p)?;
        Ok(
            AddressedSafetyRelatedMessage {
                message_type: message_type as u8,
                repeat_indicator: repeat_indicator as u8,
                mmsi,
                seqno: seqno as u8,
                dest_mmsi,
                retransmit: crate::messages::parsers::u8_to_bool(retransmit as u8),
                text,
            },
        )
    }
}

impl<'a> crate::messages::AisMessageType<'a> for AddressedSafetyRelatedMessage {
    open spec fn spec_name() -> Seq<char> {
        "Addressed Safety-Related Message"@
    }

    fn name(&self) -> (r: &'static str) {
        "Addressed Safety-Related Message"
    }

    fn parse(data: &'a [u8]) -> (r: Result<Self, Error>) {
        AddressedSafetyRelatedMessage::parse(data)
    }
}

} // verus!

//! UTC/Date Inquiry (type 10).
use crate::bits::{bits_u, take_u};
use crate::errors::Error;
use vstd::prelude::*;

verus! {

/// A request that a station reply with UTC date and time.
#[derive(Debug, PartialEq, Eq)]
pub struct UtcDateInquiry {
    pub message_type: u8,
    pub repeat_indicator: u8,
    pub mmsi: u32,
    pub dest_mmsi: u32,
}

impl UtcDateInquiry {
    /// Every field of `self` is the decoding of its bit field in `d`.
    pub open spec fn decodes(self, d: Seq<u8>) -> bool {
        &&& self.message_type == bits_u(d, 0, 6)
        &&& self.repeat_indicator == bits_u(d, 6, 2)
        &&& self.mmsi == bits_u(d, 8, 30)
        &&& self.dest_mmsi == bits_u(d, 40, 30)
    }

    /// Decodes a 72-bit UTC/date inquiry from an unarmored bitstream.
    pub fn parse(data: &[u8]) -> (r: Result<Self, Error>)
        requires
            data@.len() * 8 <= usize::MAX,
        ensures
            r is Ok <==> data@.len() * 8 >= 72,
            r matches Ok(m) ==> m.decodes(data@),
            r is Err ==> r == Err::<Self, Error>(Error::UnexpectedEnd),
    {
        proof {
            vstd::arithmetic::power2::lemma2_to64();
        }
        let (p, message_type) = take_u(data, 0, 6)?;
        let (p, repeat_indicator) = take_u(data, p, 2)?;
        let (p, mmsi) = take_u(data, p, 30)?;
        let (p, _spare1) = take_u(data, p, 2)?;
        let (p, dest_mmsi) = take_u(data, p, 30)?;
        let (_p, _spare2) = take_u(data, p, 2)?;
        proof {
            crate::bits::lemma_bits_u_bound(data@, 0, 6);
            crate::bits::lemma_bits_u_bound(data@, 6, 2);
        }
        Ok(
            UtcDateInquiry {
                message_type: message_type as u8,
                repeat_indicator: repeat_indicator as u8,
                mmsi,
                dest_mmsi,
            },
        )
    }
}

impl<'a> crate::messages::AisMessageType<'a> for UtcDateInquiry {
    open spec fn spec_name() -> Seq<char> {
        "UTC/Date Inquiry"@
    }

    fn name(&self) -> (r: &'static str) {
        "UTC/Date Inquiry"
    }

    fn parse(data: &'a [u8]) -> (r: Result<Self, Error>) {
        UtcDateInquiry::parse(data)
    }
}

} // verus!

//! Assignment Mode Command (type 16).
use crate::bits::{bits_u, take_u};
use crate::errors::Error;
use vstd::prelude::*;

verus! {

/// A command assigning transmission schedules to one or two stations.
#[derive(Debug, PartialEq, Eq)]
pub struct AssignmentModeCommand {
    pub message_type: u8,
    pub repeat_indicator: u8,
    pub mmsi: u32,
    pub mmsi1: u32,
    pub offset1: u16,
    pub increment1: u16,
    pub mmsi2: Option<u32>,
    pub offset2: Option<u16>,
    pub increment2: Option<u16>,
}

impl AssignmentModeCommand {
    /// Every field of `self` is the decoding of its bit field in `d`; the
    /// second station is present exactly when 52 more bits follow the
    /// first.
    pub open spec fn decodes(self, d: Seq<u8>) -> bool {
        &&& self.message_type == bits_u(d, 0, 6)
        &&& self.repeat_indicator == bits_u(d, 6, 2)
        &&& self.mmsi == bits_u(d, 8, 30)
        &&& self.mmsi1 == bits_u(d, 40, 30)
        &&& self.offset1 == bits_u(d, 70, 12)
        &&& self.increment1 == bits_u(d, 82, 10)
        &&& if 8 * d.len() >= 144 {
            &&& self.mmsi2 == Some(bits_u(d, 92, 30) as u32)
            &&& self.offset2 == Some(bits_u(d, 122, 12) as u16)
            &&& self.increment2 == Some(bits_u(d, 134, 10) as u16)
        } else {
            self.mmsi2 is None && self.offset2 is None && self.increment2 is None
        }
    }

    /// Decodes an assignment mode command from an unarmored bitstream:
    /// one 52-bit station assignment, and a second one when it fits.
    pub fn parse(data: &[u8]) -> (r: Result<Self, Error>)
        requires
            data@.len() * 8 <= usize::MAX,
        ensures
            r is Ok <==> data@.len() * 8 >= 92,
            r matches Ok(m) ==> m.decodes(data@),
            r is Err ==> r == Err::<Self, Error>(Error::UnexpectedEnd),
    {
        proof {
            vstd::arithmetic::power2::lemma2_to64();
        }
        let total = data.len() * 8;
        let (p, message_type) = take_u(data, 0, 6)?;
        let (p, repeat_indicator) = take_u(data, p, 2)?;
        let (p, mmsi) = take_u(data, p, 30)?;
        let (p, _spare) = take_u(data, p, 2)?;
        let (p, mmsi1) = take_u(data, p, 30)?;
        let (p, offset1) = take_u(data, p, 12)?;
        let (p, increment1) = take_u(data, p, 10)?;
        proof {
            crate::bits::lemma_bits_u_bound(data@, 0, 6);
            crate::bits::lemma_bits_u_bound(data@, 6, 2);
            crate::bits::lemma_bits_u_bound(data@, 70, 12);
            crate::bits::lemma_bits_u_bound(data@, 82, 10);
            crate::bits::lemma_bits_u_bound(data@, 122, 12);
            crate::bits::lemma_bits_u_bound(data@, 134, 10);
        }
        if total - p >= 52 {
            let (p, mmsi2) = take_u(data, p, 30)?;
            let (p, offset2) = take_u(data, p, 12)?;
            let (_p, increment2) = take_u(data, p, 10)?;
            Ok(
                AssignmentModeCommand {
                    message_type: message_type as u8,
                    repeat_indicator: repeat_indicator as u8,
                    mmsi,
                    mmsi1,
                    offset1: offset1 as u16,
                    increment1: increment1 as u16,
                    mmsi2: Some(mmsi2),
                    offset2: Some(offset2 as u16),
                    increment2: Some(increment2 as u16),
                },
            )
        } else {
            Ok(
                AssignmentModeCommand {
                    message_type: message_type as u8,
                    repeat_indicator: repeat_indicator as u8,
                    mmsi,
                    mmsi1,
                    offset1: offset1 as u16,
                    increment1: increment1 as u16,
                    mmsi2: None,
                    offset2: None,
                    increment2: None,
                },
            )
        }
    }
}

impl<'a> crate::messages::AisMessageType<'a> for AssignmentModeCommand {
    open spec fn spec_name() -> Seq<char> {
        "Assignment Mode Command"@
    }

    fn name(&self) -> (r: &'static str) {
        "Assignment Mode Command"
    }

    fn parse(data: &'a [u8]) -> (r: Result<Self, Error>) {
        AssignmentModeCommand::parse(data)
    }
}

} // verus!

//! Binary Broadcast Message (type 8).
use crate::bits::{bits_u, take_u};
use crate::errors::Error;
use vstd::prelude::*;

verus! {

/// A binary application message broadcast to all stations. The
/// application payload is kept as the raw byte tail of the bitstream.
#[derive(Debug, PartialEq)]
pub struct BinaryBroadcastMessage {
    pub message_type: u8,
    pub repeat_indicator: u8,
    pub mmsi: u32,
    /// Designated area code.
    pub dac: u16,
    /// Functional ID.
    pub fid: u8,
    pub data: Vec<u8>,
}

impl BinaryBroadcastMessage {
    /// Every field of `self` is the decoding of its bit field in `d`; the
    /// application data is the byte tail after the 56-bit (7-byte)
    /// header.
    pub open spec fn decodes(self, d: Seq<u8>) -> bool {
        &&& self.message_type == bits_u(d, 0, 6)
        &&& self.repeat_indicator == bits_u(d, 6, 2)
        &&& self.mmsi == bits_u(d, 8, 30)
        &&& self.dac == bits_u(d, 40, 10)
        &&& self.fid == bits_u(d, 50, 6)
        &&& self.data@ == d.skip(7)
    }

    /// Decodes a binary broadcast message from an unarmored bitstream:
    /// the 56-bit header and the remaining bytes as application data.
    pub fn parse(data: &[u8]) -> (r: Result<Self, Error>)
        requires
            data@.len() * 8 <= usize::MAX,
        ensures
            r is Ok <==> data@.len() * 8 >= 56,
            r matches Ok(m) ==> m.decodes(data@),
            r is Err ==> r == Err::<Self, Error>(Error::UnexpectedEnd),
    {
        proof {
            vstd::arithmetic::power2::lemma2_to64();
        }
        let (p, message_type) = take_u(data, 0, 6)?;
        let (p, repeat_indicator) = take_u(data, p, 2)?;
        let (p, mmsi) = take_u(data, p, 30)?;
        let (p, _spare) = take_u(data, p, 2)?;
        let (p, dac) = take_u(data, p, 10)?;
        let (_p, fid) = take_u(data, p, 6)?;
        proof {
            crate::bits::lemma_bits_u_bound(data@, 0, 6);
            crate::bits::lemma_bits_u_bound(data@, 6, 2);
            crate::bits::lemma_bits_u_bound(data@, 40, 10);
            crate::bits::lemma_bits_u_bound(data@, 50, 6);
        }
        let tail = vstd::slice::slice_to_vec(&data[7..data.len()]);
        proof {
            assert(tail@ =~= data@.skip(7));
        }
        Ok(
            BinaryBroadcastMessage {
                message_type: message_type as u8,
                repeat_indicator: repeat_indicator as u8,
                mmsi,
                dac: dac as u16,
                fid: fid as u8,
                data: tail,
            },
        )
    }
}

/// Class B carrier sense category.
#[derive(Debug, PartialEq, Eq, Copy, Clone)]
pub enum CarrierSense {
    /// Class B SOTDMA unit.
    Sotdma,
    /// Class B Carrier Sense unit.
    CarrierSense,
}

impl CarrierSense {
    /// The category named by one wire bit.
    pub open spec fn spec_parse(v: nat) -> CarrierSense {
        if v == 0 {
            CarrierSense::Sotdma
        } else {
            CarrierSense::CarrierSense
        }
    }

    /// Decodes the single carrier-sense bit.
    pub fn parse(val: u8) -> (r: Self)
        requires
            val <= 1,
        ensures
            r == Self::spec_parse(val as nat),
    {
        if val == 0 {
            Self::Sotdma
        } else {
            Self::CarrierSense
        }
    }
}

/// Station operating mode: autonomous and continuous, or assigned.
#[derive(Debug, PartialEq, Eq, Copy, Clone)]
pub enum AssignedMode {
    Autonomous,
    Assigned,
}

impl AssignedMode {
    /// The mode named by one wire bit.
    pub open spec fn spec_parse(v: nat) -> AssignedMode {
        if v == 0 {
            AssignedMode::Autonomous
        } else {
            AssignedMode::Assigned
        }
    }

    /// Decodes the single assigned-mode bit.
    pub fn parse(val: u8) -> (r: Self)
        requires
            val <= 1,
        ensures
            r == Self::spec_parse(val as nat),
    {
        if val == 0 {
            Self::Autonomous
        } else {
            Self::Assigned
        }
    }
}

impl<'a> crate::messages::AisMessageType<'a> for BinaryBroadcastMessage {
    open spec fn spec_name() -> Seq<char> {
        "Binary Broadcast Message"@
    }

    fn name(&self) -> (r: &'static str) {
        "Binary Broadcast Message"
    }

    fn parse(data: &'a [u8]) -> (r: Result<Self, Error>) {
        BinaryBroadcastMessage::parse(data)
    }
}

} // verus!

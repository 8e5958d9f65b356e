//! Binary Addressed Message (type 6).
use crate::bits::{bits_u, take_u};
use crate::errors::Error;
use vstd::prelude::*;

verus! {

/// A binary application message addressed to one station. The
/// application payload is kept as the raw byte tail of the bitstream.
#[derive(Debug, PartialEq)]
pub struct BinaryAddressedMessage {
    pub message_type: u8,
    pub repeat_indicator: u8,
    pub mmsi: u32,
    pub seqno: u8,
    pub dest_mmsi: u32,
    pub retransmit: bool,
    /// Designated area code.
    pub dac: u16,
    /// Functional ID.
    pub fid: u8,
    pub data: Vec<u8>,
}

impl BinaryAddressedMessage {
    /// Every field of `self` is the decoding of its bit field in `d`; the
    /// application data is the byte tail after the 88-bit (11-byte)
    /// header.
    pub open spec fn decodes(self, d: Seq<u8>) -> bool {
        &&& self.message_type == bits_u(d, 0, 6)
        &&& self.repeat_indicator == bits_u(d, 6, 2)
        &&& self.mmsi == bits_u(d, 8, 30)
        &&& self.seqno == bits_u(d, 38, 2)
        &&& self.dest_mmsi == bits_u(d, 40, 30)
        &&& self.retransmit == (bits_u(d, 70, 1) == 1)
        &&& self.dac == bits_u(d, 72, 10)
        &&& self.fid == bits_u(d, 82, 6)
        &&& self.data@ == d.skip(11)
    }

    /// Decodes a binary addressed message from an unarmored bitstream:
    /// the 88-bit header and the remaining bytes as application data.
    pub fn parse(data: &[u8]) -> (r: Result<Self, Error>)
        requires
            data@.len() * 8 <= usize::MAX,
        ensures
            r is Ok <==> data@.len() * 8 >= 88,
            r matches Ok(m) ==> m.decodes(data@),
            r is Err ==> r == Err::<Self, Error>(Error::UnexpectedEnd),
    {
        proof {
            vstd::arithmetic::power2::lemma2_to64();
        }
        let (p, message_type) = take_u(data, 0, 6)?;
        let (p, repeat_indicator) = take_u(data, p, 2)?;
        let (p, mmsi) = take_u(data, p, 30)?;
        let (p, seqno) = take_u(data, p, 2)?;
        let (p, dest_mmsi) = take_u(data, p, 30)?;
        let (p, retransmit) = take_u(data, p, 1)?;
        let (p, _spare) = take_u(data, p, 1)?;
        let (p, dac) = take_u(data, p, 10)?;
        let (_p, fid) = take_u(data, p, 6)?;
        proof {
            crate::bits::lemma_bits_u_bound(data@, 0, 6);
            crate::bits::lemma_bits_u_bound(data@, 6, 2);
            crate::bits::lemma_bits_u_bound(data@, 38, 2);
            crate::bits::lemma_bits_u_bound(data@, 70, 1);
            crate::bits::lemma_bits_u_bound(data@, 72, 10);
            crate::bits::lemma_bits_u_bound(data@, 82, 6);
        }
        let tail = vstd::slice::slice_to_vec(&data[11..data.len()]);
        proof {
            assert(tail@ =~= data@.skip(11));
        }
        Ok(
            BinaryAddressedMessage {
                message_type: message_type as u8,
                repeat_indicator: repeat_indicator as u8,
                mmsi,
                seqno: seqno as u8,
                dest_mmsi,
                retransmit: crate::messages::parsers::u8_to_bool(retransmit as u8),
                dac: dac as u16,
                fid: fid as u8,
                data: tail,
            },
        )
    }
}

impl<'a> crate::messages::AisMessageType<'a> for BinaryAddressedMessage {
    open spec fn spec_name() -> Seq<char> {
        "Binary Addressed Message"@
    }

    fn name(&self) -> (r: &'static str) {
        "Binary Addressed Message"
    }

    fn parse(data: &'a [u8]) -> (r: Result<Self, Error>) {
        BinaryAddressedMessage::parse(data)
    }
}

} // verus!

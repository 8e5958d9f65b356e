//! DGNSS Broadcast Binary Message (type 17).
use crate::bits::{bits_i, bits_u, take_i, take_u};
use crate::errors::Error;
use vstd::prelude::*;

verus! {

/// Wire longitude in 1/600 degree, 18 bits signed: 108600 means "not
/// available".
pub open spec fn spec_longitude_min10(v: int) -> Option<i32> {
    if v == 108600 {
        None
    } else {
        Some(v as i32)
    }
}

/// Wire latitude in 1/600 degree, 17 bits signed: 54600 means "not
/// available".
pub open spec fn spec_latitude_min10(v: int) -> Option<i32> {
    if v == 54600 {
        None
    } else {
        Some(v as i32)
    }
}

/// The differential correction word carried inside a type 17 message.
#[derive(Debug, PartialEq)]
pub struct DifferentialCorrectionData {
    pub message_type: u8,
    pub station_id: u16,
    pub z_count: u16,
    pub sequence_number: u8,
    pub n: u8,
    pub health: u8,
    pub data: Vec<u8>,
}

/// A DGNSS correction broadcast: a coarse position and the raw
/// correction payload.
#[derive(Debug, PartialEq)]
pub struct DgnssBroadcastBinaryMessage {
    pub message_type: u8,
    pub repeat_indicator: u8,
    pub mmsi: u32,
    pub longitude: Option<i32>,
    pub latitude: Option<i32>,
    pub payload: DifferentialCorrectionData,
}

impl DgnssBroadcastBinaryMessage {
    /// Every field of `self` is the decoding of its bit field in `d`; the
    /// correction data is the byte tail after the 120-bit (15-byte)
    /// header.
    pub open spec fn decodes(self, d: Seq<u8>) -> bool {
        &&& self.message_type == bits_u(d, 0, 6)
        &&& self.repeat_indicator == bits_u(d, 6, 2)
        &&& self.mmsi == bits_u(d, 8, 30)
        &&& self.longitude == spec_longitude_min10(bits_i(d, 40, 18))
        &&& self.latitude == spec_latitude_min10(bits_i(d, 58, 17))
        &&& self.payload.message_type == bits_u(d, 80, 6)
        &&& self.payload.station_id == bits_u(d, 86, 10)
        &&& self.payload.z_count == bits_u(d, 96, 13)
        &&& self.payload.sequence_number == bits_u(d, 109, 3)
        &&& self.payload.n == bits_u(d, 112, 5)
        &&& self.payload.health == bits_u(d, 117, 3)
        &&& self.payload.data@ == d.skip(15)
    }

    /// Decodes a DGNSS broadcast from an unarmored bitstream: the
    /// 120-bit header and the remaining bytes as correction data.
    pub fn parse(data: &[u8]) -> (r: Result<Self, Error>)
        requires
            data@.len() * 8 <= usize::MAX,
        ensures
            r is Ok <==> data@.len() * 8 >= 120,
            r matches Ok(m) ==> m.decodes(data@),
            r is Err ==> r == Err::<Self, Error>(Error::UnexpectedEnd),
    {
        proof {
            vstd::arithmetic::power2::lemma2_to64();
        }
        let (p, message_type) = take_u(data, 0, 6)?;
        let (p, repeat_indicator) = take_u(data, p, 2)?;
        let (p, mmsi) = take_u(data, p, 30)?;
        let (p, _spare) = take_u(data, p, 2)?;
        let (p, lon) = take_i(data, p, 18)?;
        let (p, lat) = take_i(data, p, 17)?;
        let (p, _spare2) = take_u(data, p, 5)?;
        let (p, ptype) = take_u(data, p, 6)?;
        let (p, station_id) = take_u(data, p, 10)?;
        let (p, z_count) = take_u(data, p, 13)?;
        let (p, sequence_number) = take_u(data, p, 3)?;
        let (p, n) = take_u(data, p, 5)?;
        let (_p, health) = take_u(data, p, 3)?;
        proof {
            crate::bits::lemma_bits_u_bound(data@, 0, 6);
            crate::bits::lemma_bits_u_bound(data@, 6, 2);
            crate::bits::lemma_bits_u_bound(data@, 80, 6);
            crate::bits::lemma_bits_u_bound(data@, 86, 10);
            crate::bits::lemma_bits_u_bound(data@, 96, 13);
            crate::bits::lemma_bits_u_bound(data@, 109, 3);
            crate::bits::lemma_bits_u_bound(data@, 112, 5);
            crate::bits::lemma_bits_u_bound(data@, 117, 3);
        }
        let tail = vstd::slice::slice_to_vec(&data[15..data.len()]);
        proof {
            assert(tail@ =~= data@.skip(15));
        }
        let longitude = if lon == 108600 {
            None
        } else {
            Some(lon)
        };
        let latitude = if lat == 54600 {
            None
        } else {
            Some(lat)
        };
        Ok(
            DgnssBroadcastBinaryMessage {
                message_type: message_type as u8,
                repeat_indicator: repeat_indicator as u8,
                mmsi,
                longitude,
                latitude,
                payload: DifferentialCorrectionData {
                    message_type: ptype as u8,
                    station_id: station_id as u16,
                    z_count: z_count as u16,
                    sequence_number: sequence_number as u8,
                    n: n as u8,
                    health: health as u8,
                    data: tail,
                },
            },
        )
    }
}

impl<'a> crate::messages::AisMessageType<'a> for DgnssBroadcastBinaryMessage {
    open spec fn spec_name() -> Seq<char> {
        "DGNSS Broadcast Binary Message"@
    }

    fn name(&self) -> (r: &'static str) {
        "DGNSS Broadcast Binary Message"
    }

    fn parse(data: &'a [u8]) -> (r: Result<Self, Error>) {
        DgnssBroadcastBinaryMessage::parse(data)
    }
}

} // verus!

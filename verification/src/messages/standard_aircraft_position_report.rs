//! Standard SAR Aircraft Position Report (type 9).
use crate::bits::{bits_i, bits_u, take_i, take_u};
use crate::errors::Error;
use crate::messages::navigation::{
    spec_course_over_ground, spec_latitude, spec_longitude, Accuracy,
};
use crate::messages::radio_status::{spec_sotdma, RadioStatus, SotdmaMessage};
use crate::messages::types::{spec_assigned_mode, spec_dte, AssignedMode, Dte};
use vstd::prelude::*;

verus! {

/// Wire altitude, 12 bits of metres: 4095 means "not available" and 4094
/// stands for 4094 metres or more.
pub open spec fn spec_altitude(v: nat) -> Option<u16>
    recommends
        v < 4096,
{
    if v == 4095 {
        None
    } else {
        Some(v as u16)
    }
}

/// Wire speed over ground for SAR aircraft, 10 bits of whole knots: 1023
/// means "not available" and 1022 stands for 1022 knots or more.
pub open spec fn spec_speed_over_ground_sar(v: nat) -> Option<u16>
    recommends
        v < 1024,
{
    if v == 1023 {
        None
    } else {
        Some(v as u16)
    }
}

/// A search-and-rescue aircraft position report.
#[derive(Debug, PartialEq)]
pub struct SARPositionReport {
    pub message_type: u8,
    pub repeat_indicator: u8,
    pub mmsi: u32,
    pub altitude: Option<u16>,
    pub speed_over_ground: Option<u16>,
    pub position_accuracy: Accuracy,
    pub longitude: Option<i32>,
    pub latitude: Option<i32>,
    pub course_over_ground: Option<u16>,
    pub timestamp: u8,
    pub dte: Dte,
    pub assigned_mode: AssignedMode,
    pub raim: bool,
    pub radio_status: RadioStatus,
}

impl SARPositionReport {
    /// Every field of `self` is the decoding of its bit field in `d`. The
    /// radio status is read as an SOTDMA word.
    pub open spec fn decodes(self, d: Seq<u8>) -> bool {
        &&& self.message_type == bits_u(d, 0, 6)
        &&& self.repeat_indicator == bits_u(d, 6, 2)
        &&& self.mmsi == bits_u(d, 8, 30)
        &&& self.altitude == spec_altitude(bits_u(d, 38, 12))
        &&& self.speed_over_ground == spec_speed_over_ground_sar(bits_u(d, 50, 10))
        &&& self.position_accuracy == Accuracy::spec_parse(bits_u(d, 60, 1))
        &&& self.longitude == spec_longitude(bits_i(d, 61, 28))
        &&& self.latitude == spec_latitude(bits_i(d, 89, 27))
        &&& self.course_over_ground == spec_course_over_ground(bits_u(d, 116, 12))
        &&& self.timestamp == bits_u(d, 128, 6)
        &&& self.dte == spec_dte(bits_u(d, 142, 1))
        &&& self.assigned_mode == spec_assigned_mode(bits_u(d, 146, 1))
        &&& self.raim == (bits_u(d, 147, 1) == 1)
        &&& self.radio_status == spec_sotdma(d, 148)
    }

    /// Decodes a 167-bit SAR aircraft position report from an unarmored
    /// bitstream.
    pub fn parse(data: &[u8]) -> (r: Result<Self, Error>)
        requires
            data@.len() * 8 <= usize::MAX,
        ensures
            r is Ok <==> data@.len() * 8 >= 167,
            r matches Ok(m) ==> m.decodes(data@),
            r is Err ==> r == Err::<Self, Error>(Error::UnexpectedEnd),
    {
        proof {
            vstd::arithmetic::power2::lemma2_to64();
        }
        let (p, message_type) = take_u(data, 0, 6)?;
        let (p, repeat_indicator) = take_u(data, p, 2)?;
        let (p, mmsi) = take_u(data, p, 30)?;
        let (p, altitude) = take_u(data, p, 12)?;
        let (p, sog) = take_u(data, p, 10)?;
        let (p, acc) = take_u(data, p, 1)?;
        let (p, lon) = take_i(data, p, 28)?;
        let (p, lat) = take_i(data, p, 27)?;
        let (p, cog) = take_u(data, p, 12)?;
        let (p, timestamp) = take_u(data, p, 6)?;
        let (p, _regional) = take_u(data, p, 8)?;
        let (p, dte) = take_u(data, p, 1)?;
        let (p, _spare) = take_u(data, p, 3)?;
        let (p, assigned) = take_u(data, p, 1)?;
        let (p, raim) = take_u(data, p, 1)?;
        let (_p, radio_status) = SotdmaMessage::parse(data, p)?;
        proof {
            crate::bits::lemma_bits_u_bound(data@, 0, 6);
            crate::bits::lemma_bits_u_bound(data@, 6, 2);
            crate::bits::lemma_bits_u_bound(data@, 38, 12);
            crate::bits::lemma_bits_u_bound(data@, 50, 10);
            crate::bits::lemma_bits_u_bound(data@, 60, 1);
            crate::bits::lemma_bits_u_bound(data@, 116, 12);
            crate::bits::lemma_bits_u_bound(data@, 128, 6);
            crate::bits::lemma_bits_u_bound(data@, 142, 1);
            crate::bits::lemma_bits_u_bound(data@, 146, 1);
            crate::bits::lemma_bits_u_bound(data@, 147, 1);
        }
        let altitude = if altitude == 4095 {
            None
        } else {
            Some(altitude as u16)
        };
        let speed_over_ground = if sog == 1023 {
            None
        } else {
            Some(sog as u16)
        };
        Ok(
            SARPositionReport {
                message_type: message_type as u8,
                repeat_indicator: repeat_indicator as u8,
                mmsi,
                altitude,
                speed_over_ground,
                position_accuracy: Accuracy::parse(acc as u8),
                longitude: crate::messages::navigation::parse_longitude(lon),
                latitude: crate::messages::navigation::parse_latitude(lat),
                course_over_ground: crate::messages::navigation::parse_cog(cog as u16),
                timestamp: timestamp as u8,
                dte: Dte::parse(dte as u8),
                assigned_mode: AssignedMode::parse(assigned as u8),
                raim: crate::messages::parsers::u8_to_bool(raim as u8),
                radio_status,
            },
        )
    }
}

impl<'a> crate::messages::AisMessageType<'a> for SARPositionReport {
    open spec fn spec_name() -> Seq<char> {
        "Standard SAR Aircraft Position Report"@
    }

    fn name(&self) -> (r: &'static str) {
        "Standard SAR Aircraft Position Report"
    }

    fn parse(data: &'a [u8]) -> (r: Result<Self, Error>) {
        SARPositionReport::parse(data)
    }
}

} // verus!

//! Long Range AIS Broadcast message (type 27).
use crate::bits::{bits_i, bits_u, take_i, take_u};
use crate::errors::Error;
use crate::messages::navigation::{spec_latitude, spec_longitude, Accuracy};
use crate::messages::position_report::{spec_nav_status, NavigationStatus};
use vstd::prelude::*;

verus! {

/// Wire speed over ground for the long-range form, 6 bits of whole knots:
/// 63 means "not available".
pub open spec fn spec_speed_over_ground_62(v: nat) -> Option<u16>
    recommends
        v < 64,
{
    if v == 63 {
        None
    } else {
        Some(v as u16)
    }
}

/// Wire course over ground for the long-range form, 9 bits of whole
/// degrees: 511 means "not available".
pub open spec fn spec_course_over_ground_511(v: nat) -> Option<u16>
    recommends
        v < 512,
{
    if v == 511 {
        None
    } else {
        Some(v as u16)
    }
}

/// A long-range position broadcast with coarse 1/600-degree coordinates
/// and whole-unit speed and course.
#[derive(Debug, PartialEq)]
pub struct LongRangeAisBroadcastMessage {
    pub message_type: u8,
    pub repeat_indicator: u8,
    pub mmsi: u32,
    pub position_accuracy: Accuracy,
    pub raim: bool,
    pub navigation_status: Option<NavigationStatus>,
    pub longitude: Option<i32>,
    pub latitude: Option<i32>,
    pub speed_over_ground: Option<u16>,
    pub course_over_ground: Option<u16>,
    pub gnss_position_status: bool,
}

impl LongRangeAisBroadcastMessage {
    /// Every field of `self` is the decoding of its bit field in `d`.
    /// The coordinates are raw 18- and 17-bit signed values, in 1/600
    /// degree.
    pub open spec fn decodes(self, d: Seq<u8>) -> bool {
        &&& self.message_type == bits_u(d, 0, 6)
        &&& self.repeat_indicator == bits_u(d, 6, 2)
        &&& self.mmsi == bits_u(d, 8, 30)
        &&& self.position_accuracy == Accuracy::spec_parse(bits_u(d, 38, 1))
        &&& self.raim == (bits_u(d, 39, 1) == 1)
        &&& self.navigation_status == spec_nav_status(bits_u(d, 40, 4))
        &&& self.longitude == spec_longitude(bits_i(d, 44, 18))
        &&& self.latitude == spec_latitude(bits_i(d, 62, 17))
        &&& self.speed_over_ground == spec_speed_over_ground_62(bits_u(d, 79, 6))
        &&& self.course_over_ground == spec_course_over_ground_511(bits_u(d, 85, 9))
        &&& self.gnss_position_status == (bits_u(d, 94, 1) == 1)
    }

    /// Decodes a 95-bit long-range broadcast from an unarmored bitstream.
    pub fn parse(data: &[u8]) -> (r: Result<Self, Error>)
        requires
            data@.len() * 8 <= usize::MAX,
        ensures
            r is Ok <==> data@.len() * 8 >= 95,
            r matches Ok(m) ==> m.decodes(data@),
            r is Err ==> r == Err::<Self, Error>(Error::UnexpectedEnd),
    {
        proof {
            vstd::arithmetic::power2::lemma2_to64();
        }
        let (p, message_type) = take_u(data, 0, 6)?;
        let (p, repeat_indicator) = take_u(data, p, 2)?;
        let (p, mmsi) = take_u(data, p, 30)?;
        let (p, acc) = take_u(data, p, 1)?;
        let (p, raim) = take_u(data, p, 1)?;
        let (p, nav) = take_u(data, p, 4)?;
        let (p, lon) = take_i(data, p, 18)?;
        let (p, lat) = take_i(data, p, 17)?;
        let (p, sog) = take_u(data, p, 6)?;
        let (p, cog) = take_u(data, p, 9)?;
        let (_p, gnss) = take_u(data, p, 1)?;
        proof {
            crate::bits::lemma_bits_u_bound(data@, 0, 6);
            crate::bits::lemma_bits_u_bound(data@, 6, 2);
            crate::bits::lemma_bits_u_bound(data@, 38, 1);
            crate::bits::lemma_bits_u_bound(data@, 39, 1);
            crate::bits::lemma_bits_u_bound(data@, 40, 4);
            crate::bits::lemma_bits_u_bound(data@, 79, 6);
            crate::bits::lemma_bits_u_bound(data@, 85, 9);
            crate::bits::lemma_bits_u_bound(data@, 94, 1);
        }
        let speed_over_ground = if sog == 63 {
            None
        } else {
            Some(sog as u16)
        };
        let course_over_ground = if cog == 511 {
            None
        } else {
            Some(cog as u16)
        };
        Ok(
            LongRangeAisBroadcastMessage {
                message_type: message_type as u8,
                repeat_indicator: repeat_indicator as u8,
                mmsi,
                position_accuracy: Accuracy::parse(acc as u8),
                raim: crate::messages::parsers::u8_to_bool(raim as u8),
                navigation_status: NavigationStatus::parse(nav as u8),
                longitude: crate::messages::navigation::parse_longitude(lon),
                latitude: crate::messages::navigation::parse_latitude(lat),
                speed_over_ground,
                course_over_ground,
                gnss_position_status: crate::messages::parsers::u8_to_bool(gnss as u8),
            },
        )
    }
}

impl<'a> crate::messages::AisMessageType<'a> for LongRangeAisBroadcastMessage {
    open spec fn spec_name() -> Seq<char> {
        "Long Range AIS Broadcast message"@
    }

    fn name(&self) -> (r: &'static str) {
        "Long Range AIS Broadcast message"
    }

    fn parse(data: &'a [u8]) -> (r: Result<Self, Error>) {
        LongRangeAisBroadcastMessage::parse(data)
    }
}

} // verus!

//! Position Report Class A (types 1 to 3).
use crate::bits::{bits_i, bits_u, take_i, take_u};
use crate::errors::Error;
use crate::messages::navigation::{
    spec_course_over_ground, spec_heading, spec_latitude, spec_longitude, spec_speed_over_ground,
    Accuracy, ManeuverIndicator, RateOfTurn,
};
use crate::messages::radio_status::{parse_radio, spec_radio, RadioStatus};
use vstd::prelude::*;

verus! {

/// Navigational status of the reporting vessel: 15 means "not defined".
#[derive(Debug, PartialEq, Eq, Copy, Clone)]
pub enum NavigationStatus {
    UnderWayUsingEngine,
    AtAnchor,
    NotUnderCommand,
    RestrictedManouverability,
    ConstrainedByDraught,
    Moored,
    Aground,
    EngagedInFishing,
    UnderWaySailing,
    ReservedForHSC,
    ReservedForWIG,
    Reserved01,
    Reserved02,
    Reserved03,
    AisSartIsActive,
    Unknown(u8),
}

/// The navigation status named by a raw 4-bit wire value: 15 means "not
/// defined".
pub open spec fn spec_nav_status(v: nat) -> Option<NavigationStatus> {
    if v == 0 {
        Some(NavigationStatus::UnderWayUsingEngine)
    } else if v == 1 {
        Some(NavigationStatus::AtAnchor)
    } else if v == 2 {
        Some(NavigationStatus::NotUnderCommand)
    } else if v == 3 {
        Some(NavigationStatus::RestrictedManouverability)
    } else if v == 4 {
        Some(NavigationStatus::ConstrainedByDraught)
    } else if v == 5 {
        Some(NavigationStatus::Moored)
    } else if v == 6 {
        Some(NavigationStatus::Aground)
    } else if v == 7 {
        Some(NavigationStatus::EngagedInFishing)
    } else if v == 8 {
        Some(NavigationStatus::UnderWaySailing)
    } else if v == 9 {
        Some(NavigationStatus::ReservedForHSC)
    } else if v == 10 {
        Some(NavigationStatus::ReservedForWIG)
    } else if v == 11 {
        Some(NavigationStatus::Reserved01)
    } else if v == 12 {
        Some(NavigationStatus::Reserved02)
    } else if v == 13 {
        Some(NavigationStatus::Reserved03)
    } else if v == 14 {
        Some(NavigationStatus::AisSartIsActive)
    } else if v == 15 {
        None
    } else {
        Some(NavigationStatus::Unknown(v as u8))
    }
}

impl NavigationStatus {
    /// Decodes the 4-bit navigation status; the sentinel 15 decodes to
    /// `None`.
    pub fn parse(data: u8) -> (r: Option<Self>)
        ensures
            r == spec_nav_status(data as nat),
    {
        match data {
            0 => Some(Self::UnderWayUsingEngine),
            1 => Some(Self::AtAnchor),
            2 => Some(Self::NotUnderCommand),
            3 => Some(Self::RestrictedManouverability),
            4 => Some(Self::ConstrainedByDraught),
            5 => Some(Self::Moored),
            6 => Some(Self::Aground),
            7 => Some(Self::EngagedInFishing),
            8 => Some(Self::UnderWaySailing),
            9 => Some(Self::ReservedForHSC),
            10 => Some(Self::ReservedForWIG),
            11 => Some(Self::Reserved01),
            12 => Some(Self::Reserved02),
            13 => Some(Self::Reserved03),
            14 => Some(Self::AisSartIsActive),
            15 => None,
            _ => Some(Self::Unknown(data)),
        }
    }
}

/// A Class A position report. Coordinates are raw 1/600000-degree units,
/// speed and course raw tenths; the sentinels of every field decode to
/// `None`.
#[derive(Debug, PartialEq)]
pub struct PositionReport {
    pub message_type: u8,
    pub repeat_indicator: u8,
    pub mmsi: u32,
    pub navigation_status: Option<NavigationStatus>,
    pub rate_of_turn: Option<RateOfTurn>,
    pub speed_over_ground: Option<u16>,
    pub position_accuracy: Accuracy,
    pub longitude: Option<i32>,
    pub latitude: Option<i32>,
    pub course_over_ground: Option<u16>,
    pub true_heading: Option<u16>,
    pub timestamp: u8,
    pub maneuver_indicator: Option<ManeuverIndicator>,
    pub raim: bool,
    pub radio_status: RadioStatus,
}

impl PositionReport {
    /// Every field of `self` is the decoding of its bit field in `d`.
    pub open spec fn decodes(self, d: Seq<u8>) -> bool {
        &&& self.message_type == bits_u(d, 0, 6)
        &&& self.repeat_indicator == bits_u(d, 6, 2)
        &&& self.mmsi == bits_u(d, 8, 30)
        &&& self.navigation_status == spec_nav_status(bits_u(d, 38, 4))
        &&& self.rate_of_turn == RateOfTurn::spec_parse(bits_u(d, 42, 8))
        &&& self.speed_over_ground == spec_speed_over_ground(bits_u(d, 50, 10))
        &&& self.position_accuracy == Accuracy::spec_parse(bits_u(d, 60, 1))
        &&& self.longitude == spec_longitude(bits_i(d, 61, 28))
        &&& self.latitude == spec_latitude(bits_i(d, 89, 27))
        &&& self.course_over_ground == spec_course_over_ground(bits_u(d, 116, 12))
        &&& self.true_heading == spec_heading(bits_u(d, 128, 9))
        &&& self.timestamp == bits_u(d, 137, 6)
        &&& self.maneuver_indicator == ManeuverIndicator::spec_parse(bits_u(d, 143, 2))
        &&& self.raim == (bits_u(d, 148, 1) == 1)
        &&& self.radio_status == spec_radio(d, 149, bits_u(d, 0, 6))
    }

    /// True of the message types whose reports carry a radio-status word:
    /// SOTDMA for 1, 2, 4 and 11, ITDMA for 3.
    pub open spec fn radio_type(t: nat) -> bool {
        t == 1 || t == 2 || t == 3 || t == 4 || t == 11
    }

    /// Decodes a 168-bit Class A position report from an unarmored
    /// bitstream. Fails with `UnexpectedEnd` on a short stream, and with a
    /// framing error when the leading type field names no radio-status
    /// scheme.
    pub fn parse(data: &[u8]) -> (r: Result<Self, Error>)
        requires
            data@.len() * 8 <= usize::MAX,
        ensures
            r is Ok <==> data@.len() * 8 >= 168 && Self::radio_type(bits_u(data@, 0, 6)),
            r matches Ok(m) ==> m.decodes(data@),
            r is Err && (data@.len() * 8 < 149 || (Self::radio_type(bits_u(data@, 0, 6))
                && data@.len() * 8 < 168)) ==> r == Err::<Self, Error>(Error::UnexpectedEnd),
            r is Err && data@.len() * 8 >= 149 && !Self::radio_type(bits_u(data@, 0, 6)) ==> r
                matches Err(Error::Nmea { .. }),
    {
        proof {
            vstd::arithmetic::power2::lemma2_to64();
        }
        let (p, message_type) = take_u(data, 0, 6)?;
        let (p, repeat_indicator) = take_u(data, p, 2)?;
        let (p, mmsi) = take_u(data, p, 30)?;
        let (p, nav) = take_u(data, p, 4)?;
        let (p, rot) = take_u(data, p, 8)?;
        let (p, sog) = take_u(data, p, 10)?;
        let (p, acc) = take_u(data, p, 1)?;
        let (p, lon) = take_i(data, p, 28)?;
        let (p, lat) = take_i(data, p, 27)?;
        let (p, cog) = take_u(data, p, 12)?;
        let (p, heading) = take_u(data, p, 9)?;
        let (p, timestamp) = take_u(data, p, 6)?;
        let (p, maneuver) = take_u(data, p, 2)?;
        let (p, _spare) = take_u(data, p, 3)?;
        let (p, raim) = take_u(data, p, 1)?;
        proof {
            crate::bits::lemma_bits_u_bound(data@, 0, 6);
            crate::bits::lemma_bits_u_bound(data@, 6, 2);
            crate::bits::lemma_bits_u_bound(data@, 38, 4);
            crate::bits::lemma_bits_u_bound(data@, 42, 8);
            crate::bits::lemma_bits_u_bound(data@, 50, 10);
            crate::bits::lemma_bits_u_bound(data@, 60, 1);
            crate::bits::lemma_bits_u_bound(data@, 116, 12);
            crate::bits::lemma_bits_u_bound(data@, 128, 9);
            crate::bits::lemma_bits_u_bound(data@, 137, 6);
            crate::bits::lemma_bits_u_bound(data@, 143, 2);
            crate::bits::lemma_bits_u_bound(data@, 148, 1);
        }
        let mt = message_type as u8;
        if !(mt == 1 || mt == 2 || mt == 3 || mt == 4 || mt == 11) {
            return Err(Error::Nmea { msg: "no radio status scheme for this message type".to_owned() });
        }
        let (_, radio_status) = parse_radio(data, p, mt)?;
        Ok(
            PositionReport {
                message_type: mt,
                repeat_indicator: repeat_indicator as u8,
                mmsi,
                navigation_status: NavigationStatus::parse(nav as u8),
                rate_of_turn: RateOfTurn::parse(rot as u8),
                speed_over_ground: crate::messages::navigation::parse_speed_over_ground(
                    sog as u16,
                ),
                position_accuracy: Accuracy::parse(acc as u8),
                longitude: crate::messages::navigation::parse_longitude(lon),
                latitude: crate::messages::navigation::parse_latitude(lat),
                course_over_ground: crate::messages::navigation::parse_cog(cog as u16),
                true_heading: crate::messages::navigation::parse_heading(heading as u16),
                timestamp: timestamp as u8,
                maneuver_indicator: ManeuverIndicator::parse(maneuver as u8),
                raim: crate::messages::parsers::u8_to_bool(raim as u8),
                radio_status,
            },
        )
    }
}

impl<'a> crate::messages::AisMessageType<'a> for PositionReport {
    open spec fn spec_name() -> Seq<char> {
        "Position Report Class A"@
    }

    fn name(&self) -> (r: &'static str) {
        "Position Report Class A"
    }

    fn parse(data: &'a [u8]) -> (r: Result<Self, Error>) {
        PositionReport::parse(data)
    }
}

} // verus!

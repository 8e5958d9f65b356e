//! Navigational field decoders: position, speed, course, heading and
//! rate-of-turn sentinels.
//!
//! Values stay in their raw wire scale: tenths of knots or degrees for
//! speed and course, 1/600000 degree for coordinates. Only the sentinel
//! translation to an absent value is performed here.
use vstd::prelude::*;

verus! {

/// Wire speed over ground, 10 bits of tenths of knots: 1023 means "not
/// available".
pub open spec fn spec_speed_over_ground(v: nat) -> Option<u16>
    recommends
        v < 1024,
{
    if v == 1023 {
        None
    } else {
        Some(v as u16)
    }
}

/// Wire longitude, 28 bits signed, in 1/600000 degree: 108600000 means
/// "not available".
pub open spec fn spec_longitude(v: int) -> Option<i32>
    recommends
        -0x8000000 <= v < 0x8000000,
{
    if v == 108600000 {
        None
    } else {
        Some(v as i32)
    }
}

/// Wire latitude, 27 bits signed, in 1/600000 degree: 54600000 means "not
/// available".
pub open spec fn spec_latitude(v: int) -> Option<i32>
    recommends
        -0x4000000 <= v < 0x4000000,
{
    if v == 54600000 {
        None
    } else {
        Some(v as i32)
    }
}

/// Wire course over ground, 12 bits of tenths of degrees: 3600 means "not
/// available".
pub open spec fn spec_course_over_ground(v: nat) -> Option<u16>
    recommends
        v < 4096,
{
    if v == 3600 {
        None
    } else {
        Some(v as u16)
    }
}

/// Wire true heading, 9 bits of whole degrees: 511 means "not available".
pub open spec fn spec_heading(v: nat) -> Option<u16>
    recommends
        v < 512,
{
    if v == 511 {
        None
    } else {
        Some(v as u16)
    }
}

/// Translates the raw 10-bit speed-over-ground field, in tenths of knots;
/// the sentinel 1023 decodes to `None`.
pub fn parse_speed_over_ground(data: u16) -> (r: Option<u16>)
    ensures
        r == spec_speed_over_ground(data as nat),
{
    if data == 1023 {
        None
    } else {
        Some(data)
    }
}

/// Translates the raw 28-bit longitude field, in 1/600000 degree; the
/// sentinel 108600000 decodes to `None`.
pub fn parse_longitude(data: i32) -> (r: Option<i32>)
    ensures
        r == spec_longitude(data as int),
{
    if data == 108600000 {
        None
    } else {
        Some(data)
    }
}

/// Translates the raw 27-bit latitude field, in 1/600000 degree; the
/// sentinel 54600000 decodes to `None`.
pub fn parse_latitude(data: i32) -> (r: Option<i32>)
    ensures
        r == spec_latitude(data as int),
{
    if data == 54600000 {
        None
    } else {
        Some(data)
    }
}

/// Translates the raw 12-bit course-over-ground field, in tenths of
/// degrees; the sentinel 3600 decodes to `None`.
pub fn parse_cog(data: u16) -> (r: Option<u16>)
    ensures
        r == spec_course_over_ground(data as nat),
{
    if data == 3600 {
        None
    } else {
        Some(data)
    }
}

/// Translates the raw 9-bit true-heading field, in whole degrees; the
/// sentinel 511 decodes to `None`.
pub fn parse_heading(data: u16) -> (r: Option<u16>)
    ensures
        r == spec_heading(data as nat),
{
    if data == 511 {
        None
    } else {
        Some(data)
    }
}

/// Position accuracy flag: 0 is an unaugmented GNSS fix, 1 a DGPS fix.
#[derive(Debug, PartialEq, Eq, Copy, Clone)]
pub enum Accuracy {
    Unaugmented,
    DGPS,
}

impl Accuracy {
    /// The accuracy named by one wire bit.
    pub open spec fn spec_parse(v: nat) -> Accuracy {
        if v == 0 {
            Accuracy::Unaugmented
        } else {
            Accuracy::DGPS
        }
    }

    /// Decodes the single accuracy bit.
    pub fn parse(data: u8) -> (r: Self)
        requires
            data <= 1,
        ensures
            r == Self::spec_parse(data as nat),
    {
        if data == 0 {
            Self::Unaugmented
        } else {
            Self::DGPS
        }
    }
}

/// Turning direction derived from the sign of the rate-of-turn field.
#[derive(Debug, PartialEq, Eq, Copy, Clone)]
pub enum Direction {
    Port,
    Starboard,
}

/// Raw 8-bit rate-of-turn field. The raw value is kept: the physical rate
/// in degrees per minute is `sign(raw) · (raw / 4.733)²`, a scaling left
/// to the caller; ±127 mean "turning with unknown rate".
#[derive(Debug, PartialEq, Eq, Copy, Clone)]
pub struct RateOfTurn {
    pub raw: i8,
}

/// The signed reading of an 8-bit rate-of-turn wire value.
pub open spec fn spec_rot_raw(v: nat) -> int
    recommends
        v < 256,
{
    if v >= 128 {
        v - 256
    } else {
        v as int
    }
}

impl RateOfTurn {
    /// The rate-of-turn named by a raw wire byte: 0x80 means "not
    /// available".
    pub open spec fn spec_parse(v: nat) -> Option<RateOfTurn>
        recommends
            v < 256,
    {
        if v == 128 {
            None
        } else {
            Some(RateOfTurn { raw: spec_rot_raw(v) as i8 })
        }
    }

    /// Decodes the 8-bit rate-of-turn field; the sentinel 0x80 decodes to
    /// `None`.
    pub fn parse(data: u8) -> (r: Option<Self>)
        ensures
            r == Self::spec_parse(data as nat),
    {
        if data == 128 {
            None
        } else if data > 128 {
            Some(RateOfTurn { raw: (-((256u16 - (data as u16)) as i16)) as i8 })
        } else {
            Some(RateOfTurn { raw: data as i8 })
        }
    }

    /// The raw signed field value, in the range -127..=127.
    pub fn raw(self) -> (r: i8)
        ensures
            r == self.raw,
    {
        self.raw
    }

    /// The turning direction: port for negative raw values, starboard for
    /// positive ones, `None` at zero.
    pub fn direction(self) -> (r: Option<Direction>)
        ensures
            self.raw == 0 ==> r is None,
            self.raw > 0 ==> r == Some(Direction::Starboard),
            self.raw < 0 ==> r == Some(Direction::Port),
    {
        if self.raw == 0 {
            None
        } else if self.raw > 0 {
            Some(Direction::Starboard)
        } else {
            Some(Direction::Port)
        }
    }
}

/// Maneuver indicator: 0 means "not available".
#[derive(Debug, PartialEq, Eq, Copy, Clone)]
pub enum ManeuverIndicator {
    NoSpecialManeuver,
    SpecialManeuver,
    Unknown(u8),
}

impl ManeuverIndicator {
    /// The indicator named by a raw wire value.
    pub open spec fn spec_parse(v: nat) -> Option<ManeuverIndicator> {
        if v == 0 {
            None
        } else if v == 1 {
            Some(ManeuverIndicator::NoSpecialManeuver)
        } else if v == 2 {
            Some(ManeuverIndicator::SpecialManeuver)
        } else {
            Some(ManeuverIndicator::Unknown(v as u8))
        }
    }

    /// Decodes the 2-bit maneuver indicator; the sentinel 0 decodes to
    /// `None`.
    pub fn parse(data: u8) -> (r: Option<Self>)
        ensures
            r == Self::spec_parse(data as nat),
    {
        match data {
            0 => None,
            1 => Some(Self::NoSpecialManeuver),
            2 => Some(Self::SpecialManeuver),
            _ => Some(Self::Unknown(data)),
        }
    }
}

} // verus!

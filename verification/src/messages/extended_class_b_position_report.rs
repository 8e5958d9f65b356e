//! Extended Class B Position Report (type 19).
use crate::bits::{bits_i, bits_u, take_i, take_u};
use crate::errors::Error;
use crate::messages::navigation::{
    spec_course_over_ground, spec_heading, spec_latitude, spec_longitude, spec_speed_over_ground,
    Accuracy,
};
use crate::messages::parsers::{parse_6bit_ascii, sixbit_text};
use crate::messages::types::{
    spec_assigned_mode, spec_dte, spec_epfd, spec_ship_type, AssignedMode, Dte, EpfdType, ShipType,
};
use vstd::prelude::*;

verus! {

/// An extended Class B position report, carrying the static data that
/// Class B units otherwise broadcast in a type 24 report.
#[derive(Debug, PartialEq)]
pub struct ExtendedClassBPositionReport {
    pub message_type: u8,
    pub repeat_indicator: u8,
    pub mmsi: u32,
    pub speed_over_ground: Option<u16>,
    pub position_accuracy: Accuracy,
    pub longitude: Option<i32>,
    pub latitude: Option<i32>,
    pub course_over_ground: Option<u16>,
    pub true_heading: Option<u16>,
    pub timestamp: u8,
    pub name: String,
    pub type_of_ship_and_cargo: Option<ShipType>,
    pub dimension_to_bow: u16,
    pub dimension_to_stern: u16,
    pub dimension_to_port: u16,
    pub dimension_to_starboard: u16,
    pub epfd_type: Option<EpfdType>,
    pub raim: bool,
    pub dte: Dte,
    pub assigned_mode: AssignedMode,
}

impl ExtendedClassBPositionReport {
    /// Every field of `self` is the decoding of its bit field in `d`.
    pub open spec fn decodes(self, d: Seq<u8>) -> bool {
        &&& self.message_type == bits_u(d, 0, 6)
        &&& self.repeat_indicator == bits_u(d, 6, 2)
        &&& self.mmsi == bits_u(d, 8, 30)
        &&& self.speed_over_ground == spec_speed_over_ground(bits_u(d, 46, 10))
        &&& self.position_accuracy == Accuracy::spec_parse(bits_u(d, 56, 1))
        &&& self.longitude == spec_longitude(bits_i(d, 57, 28))
        &&& self.latitude == spec_latitude(bits_i(d, 85, 27))
        &&& self.course_over_ground == spec_course_over_ground(bits_u(d, 112, 12))
        &&& self.true_heading == spec_heading(bits_u(d, 124, 9))
        &&& self.timestamp == bits_u(d, 133, 6)
        &&& self.name@ == sixbit_text(d, 143, 20)
        &&& self.type_of_ship_and_cargo == spec_ship_type(bits_u(d, 263, 8))
        &&& self.dimension_to_bow == bits_u(d, 271, 9)
        &&& self.dimension_to_stern == bits_u(d, 280, 9)
        &&& self.dimension_to_port == bits_u(d, 289, 6)
        &&& self.dimension_to_starboard == bits_u(d, 295, 6)
        &&& self.epfd_type == spec_epfd(bits_u(d, 301, 4))
        &&& self.raim == (bits_u(d, 305, 1) == 1)
        &&& self.dte == spec_dte(bits_u(d, 306, 1))
        &&& self.assigned_mode == spec_assigned_mode(bits_u(d, 307, 1))
    }

    /// Decodes a 312-bit extended Class B report from an unarmored
    /// bitstream.
    pub fn parse(data: &[u8]) -> (r: Result<Self, Error>)
        requires
            data@.len() * 8 <= usize::MAX,
        ensures
            r is Ok <==> data@.len() * 8 >= 312,
            r matches Ok(m) ==> m.decodes(data@),
            r is Err ==> r == Err::<Self, Error>(Error::UnexpectedEnd),
    {
        proof {
            vstd::arithmetic::power2::lemma2_to64();
        }
        let (p, message_type) = take_u(data, 0, 6)?;
        let (p, repeat_indicator) = take_u(data, p, 2)?;
        let (p, mmsi) = take_u(data, p, 30)?;
        let (p, _regional) = take_u(data, p, 8)?;
        let (p, sog) = take_u(data, p, 10)?;
        let (p, acc) = take_u(data, p, 1)?;
        let (p, lon) = take_i(data, p, 28)?;
        let (p, lat) = take_i(data, p, 27)?;
        let (p, cog) = take_u(data, p, 12)?;
        let (p, heading) = take_u(data, p, 9)?;
        let (p, timestamp) = take_u(data, p, 6)?;
        let (p, _regional2) = take_u(data, p, 4)?;
        let (p, name) = parse_6bit_ascii(data, p, 120)?;
        let (p, ship_type) = take_u(data, p, 8)?;
        let (p, dimension_to_bow) = take_u(data, p, 9)?;
        let (p, dimension_to_stern) = take_u(data, p, 9)?;
        let (p, dimension_to_port) = take_u(data, p, 6)?;
        let (p, dimension_to_starboard) = take_u(data, p, 6)?;
        let (p, epfd) = take_u(data, p, 4)?;
        let (p, raim) = take_u(data, p, 1)?;
        let (p, dte) = take_u(data, p, 1)?;
        let (p, assigned) = take_u(data, p, 1)?;
        let (_p, _spare) = take_u(data, p, 4)?;
        proof {
            crate::bits::lemma_bits_u_bound(data@, 0, 6);
            crate::bits::lemma_bits_u_bound(data@, 6, 2);
            crate::bits::lemma_bits_u_bound(data@, 46, 10);
            crate::bits::lemma_bits_u_bound(data@, 56, 1);
            crate::bits::lemma_bits_u_bound(data@, 112, 12);
            crate::bits::lemma_bits_u_bound(data@, 124, 9);
            crate::bits::lemma_bits_u_bound(data@, 133, 6);
            crate::bits::lemma_bits_u_bound(data@, 263, 8);
            crate::bits::lemma_bits_u_bound(data@, 271, 9);
            crate::bits::lemma_bits_u_bound(data@, 280, 9);
            crate::bits::lemma_bits_u_bound(data@, 289, 6);
            crate::bits::lemma_bits_u_bound(data@, 295, 6);
            crate::bits::lemma_bits_u_bound(data@, 301, 4);
            crate::bits::lemma_bits_u_bound(data@, 305, 1);
            crate::bits::lemma_bits_u_bound(data@, 306, 1);
            crate::bits::lemma_bits_u_bound(data@, 307, 1);
        }
        Ok(
            ExtendedClassBPositionReport {
                message_type: message_type as u8,
                repeat_indicator: repeat_indicator as u8,
                mmsi,
                speed_over_ground: crate::messages::navigation::parse_speed_over_ground(
                    sog as u16,
                ),
                position_accuracy: Accuracy::parse(acc as u8),
                longitude: crate::messages::navigation::parse_longitude(lon),
                latitude: crate::messages::navigation::parse_latitude(lat),
                course_over_ground: crate::messages::navigation::parse_cog(cog as u16),
                true_heading: crate::messages::navigation::parse_heading(heading as u16),
                timestamp: timestamp as u8,
                name,
                type_of_ship_and_cargo: ShipType::parse(ship_type as u8),
                dimension_to_bow: dimension_to_bow as u16,
                dimension_to_stern: dimension_to_stern as u16,
                dimension_to_port: dimension_to_port as u16,
                dimension_to_starboard: dimension_to_starboard as u16,
                epfd_type: EpfdType::parse(epfd as u8),
                raim: crate::messages::parsers::u8_to_bool(raim as u8),
                dte: Dte::parse(dte as u8),
                assigned_mode: AssignedMode::parse(assigned as u8),
            },
        )
    }
}

impl<'a> crate::messages::AisMessageType<'a> for ExtendedClassBPositionReport {
    open spec fn spec_name() -> Seq<char> {
        "Extended Class B Position Report"@
    }

    fn name(&self) -> (r: &'static str) {
        "Extended Class B Position Report"
    }

    fn parse(data: &'a [u8]) -> (r: Result<Self, Error>) {
        ExtendedClassBPositionReport::parse(data)
    }
}

} // verus!

//! Standard Class B Position Report (type 18).
use crate::bits::{bits_i, bits_u, take_i, take_u};
use crate::errors::Error;
use crate::messages::navigation::{
    spec_course_over_ground, spec_heading, spec_latitude, spec_longitude, spec_speed_over_ground,
    Accuracy,
};
use crate::messages::radio_status::{spec_itdma, spec_sotdma, ItdmaMessage, RadioStatus, SotdmaMessage};
use crate::messages::types::{spec_assigned_mode, AssignedMode};
use vstd::prelude::*;

verus! {

/// Class B carrier sense category.
#[derive(Debug, PartialEq, Eq, Copy, Clone)]
pub enum CarrierSense {
    /// Class B SOTDMA unit.
    Sotdma,
    /// Class B Carrier Sense unit.
    CarrierSense,
}

impl CarrierSense {
    /// The category named by one wire bit.
    pub open spec fn spec_parse(v: nat) -> CarrierSense {
        if v == 0 {
            CarrierSense::Sotdma
        } else {
            CarrierSense::CarrierSense
        }
    }

    /// Decodes the single carrier-sense bit.
    pub fn parse(val: u8) -> (r: Self)
        requires
            val <= 1,
        ensures
            r == Self::spec_parse(val as nat),
    {
        if val == 0 {
            Self::Sotdma
        } else {
            Self::CarrierSense
        }
    }
}

/// A Class B position report, with its capability flags.
#[derive(Debug, PartialEq)]
pub struct StandardClassBPositionReport {
    pub message_type: u8,
    pub repeat_indicator: u8,
    pub mmsi: u32,
    pub speed_over_ground: Option<u16>,
    pub position_accuracy: Accuracy,
    pub longitude: Option<i32>,
    pub latitude: Option<i32>,
    pub course_over_ground: Option<u16>,
    pub true_heading: Option<u16>,
    pub timestamp: u8,
    pub cs_unit: CarrierSense,
    pub has_display: bool,
    pub has_dsc: bool,
    pub whole_band: bool,
    pub accepts_message_22: bool,
    pub assigned_mode: AssignedMode,
    pub raim: bool,
    pub radio_status: RadioStatus,
}

impl StandardClassBPositionReport {
    /// Every field of `self` is the decoding of its bit field in `d`; the
    /// radio word is SOTDMA or ITDMA as selected by the bit before it.
    pub open spec fn decodes(self, d: Seq<u8>) -> bool {
        &&& self.message_type == bits_u(d, 0, 6)
        &&& self.repeat_indicator == bits_u(d, 6, 2)
        &&& self.mmsi == bits_u(d, 8, 30)
        &&& self.speed_over_ground == spec_speed_over_ground(bits_u(d, 46, 10))
        &&& self.position_accuracy == Accuracy::spec_parse(bits_u(d, 56, 1))
        &&& self.longitude == spec_longitude(bits_i(d, 57, 28))
        &&& self.latitude == spec_latitude(bits_i(d, 85, 27))
        &&& self.course_over_ground == spec_course_over_ground(bits_u(d, 112, 12))
        &&& self.true_heading == spec_heading(bits_u(d, 124, 9))
        &&& self.timestamp == bits_u(d, 133, 6)
        &&& self.cs_unit == CarrierSense::spec_parse(bits_u(d, 141, 1))
        &&& self.has_display == (bits_u(d, 142, 1) == 1)
        &&& self.has_dsc == (bits_u(d, 143, 1) == 1)
        &&& self.whole_band == (bits_u(d, 144, 1) == 1)
        &&& self.accepts_message_22 == (bits_u(d, 145, 1) == 1)
        &&& self.assigned_mode == spec_assigned_mode(bits_u(d, 146, 1))
        &&& self.raim == (bits_u(d, 147, 1) == 1)
        &&& self.radio_status == (if bits_u(d, 148, 1) == 0 {
            spec_sotdma(d, 149)
        } else {
            spec_itdma(d, 149)
        })
    }

    /// Decodes a 168-bit Class B position report from an unarmored
    /// bitstream.
    pub fn parse(data: &[u8]) -> (r: Result<Self, Error>)
        requires
            data@.len() * 8 <= usize::MAX,
        ensures
            r is Ok <==> data@.len() * 8 >= 168,
            r matches Ok(m) ==> m.decodes(data@),
            r is Err ==> r == Err::<Self, Error>(Error::UnexpectedEnd),
    {
        proof {
            vstd::arithmetic::power2::lemma2_to64();
        }
        let (p, message_type) = take_u(data, 0, 6)?;
        let (p, repeat_indicator) = take_u(data, p, 2)?;
        let (p, mmsi) = take_u(data, p, 30)?;
        let (p, _regional) = take_u(data, p, 8)?;
        let (p, sog) = take_u(data, p, 10)?;
        let (p, acc) = take_u(data, p, 1)?;
        let (p, lon) = take_i(data, p, 28)?;
        let (p, lat) = take_i(data, p, 27)?;
        let (p, cog) = take_u(data, p, 12)?;
        let (p, heading) = take_u(data, p, 9)?;
        let (p, timestamp) = take_u(data, p, 6)?;
        let (p, _regional2) = take_u(data, p, 2)?;
        let (p, cs_unit) = take_u(data, p, 1)?;
        let (p, has_display) = take_u(data, p, 1)?;
        let (p, has_dsc) = take_u(data, p, 1)?;
        let (p, whole_band) = take_u(data, p, 1)?;
        let (p, accepts_message_22) = take_u(data, p, 1)?;
        let (p, assigned) = take_u(data, p, 1)?;
        let (p, raim) = take_u(data, p, 1)?;
        let (p, cs_selector) = take_u(data, p, 1)?;
        proof {
            crate::bits::lemma_bits_u_bound(data@, 0, 6);
            crate::bits::lemma_bits_u_bound(data@, 6, 2);
            crate::bits::lemma_bits_u_bound(data@, 46, 10);
            crate::bits::lemma_bits_u_bound(data@, 56, 1);
            crate::bits::lemma_bits_u_bound(data@, 112, 12);
            crate::bits::lemma_bits_u_bound(data@, 124, 9);
            crate::bits::lemma_bits_u_bound(data@, 133, 6);
            crate::bits::lemma_bits_u_bound(data@, 141, 1);
            crate::bits::lemma_bits_u_bound(data@, 142, 1);
            crate::bits::lemma_bits_u_bound(data@, 143, 1);
            crate::bits::lemma_bits_u_bound(data@, 144, 1);
            crate::bits::lemma_bits_u_bound(data@, 145, 1);
            crate::bits::lemma_bits_u_bound(data@, 146, 1);
            crate::bits::lemma_bits_u_bound(data@, 147, 1);
            crate::bits::lemma_bits_u_bound(data@, 148, 1);
        }
        let (_p, radio_status) = if cs_selector == 0 {
            SotdmaMessage::parse(data, p)?
        } else {
            ItdmaMessage::parse(data, p)?
        };
        Ok(
            StandardClassBPositionReport {
                message_type: message_type as u8,
                repeat_indicator: repeat_indicator as u8,
                mmsi,
                speed_over_ground: crate::messages::navigation::parse_speed_over_ground(
                    sog as u16,
                ),
                position_accuracy: Accuracy::parse(acc as u8),
                longitude: crate::messages::navigation::parse_longitude(lon),
                latitude: crate::messages::navigation::parse_latitude(lat),
                course_over_ground: crate::messages::navigation::parse_cog(cog as u16),
                true_heading: crate::messages::navigation::parse_heading(heading as u16),
                timestamp: timestamp as u8,
                cs_unit: CarrierSense::parse(cs_unit as u8),
                has_display: crate::messages::parsers::u8_to_bool(has_display as u8),
                has_dsc: crate::messages::parsers::u8_to_bool(has_dsc as u8),
                whole_band: crate::messages::parsers::u8_to_bool(whole_band as u8),
                accepts_message_22: crate::messages::parsers::u8_to_bool(accepts_message_22 as u8),
                assigned_mode: AssignedMode::parse(assigned as u8),
                raim: crate::messages::parsers::u8_to_bool(raim as u8),
                radio_status,
            },
        )
    }
}

impl<'a> crate::messages::AisMessageType<'a> for StandardClassBPositionReport {
    open spec fn spec_name() -> Seq<char> {
        "Standard Class B Position Report"@
    }

    fn name(&self) -> (r: &'static str) {
        "Standard Class B Position Report"
    }

    fn parse(data: &'a [u8]) -> (r: Result<Self, Error>) {
        StandardClassBPositionReport::parse(data)
    }
}

} // verus!

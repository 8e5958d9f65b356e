//! Aid to Navigation Report (type 21).
use crate::bits::{bits_i, bits_u, take_i, take_u};
use crate::errors::Error;
use crate::messages::navigation::{spec_latitude, spec_longitude, Accuracy};
use crate::messages::parsers::{parse_6bit_ascii, sixbit_text};
use crate::messages::types::{spec_epfd, EpfdType};
use vstd::prelude::*;

verus! {

/// Kind of navigational aid: 0 means "not available".
#[derive(Debug, PartialEq, Eq, Copy, Clone)]
pub enum NavaidType {
    ReferencePoint,
    Racon,
    FixedStructureOffShore,
    Spare,
    LightWithoutSectors,
    LightWithSectors,
    LeadingLightFront,
    LeadingLightRear,
    BeaconCardinalN,
    BeaconCardinalE,
    BeaconCardinalS,
    BeaconCardinalW,
    BeaconPortHand,
    BeaconStarboardHand,
    BeaconPreferredChannelPortHand,
    BeaconPreferredChannelStarboardHand,
    BeaconIsolatedDanger,
    BeaconSafeWater,
    BeaconSpecialMark,
    CardinalMarkN,
    CardinalMarkE,
    CardinalMarkS,
    CardinalMarkW,
    PortHandMark,
    StarboardHandMark,
    PreferredChannelPortHand,
    PreferredChannelStarboardHand,
    IsolatedDanger,
    SafeWater,
    SpecialMark,
    LightVesselOrLanbyOrRigs,
    Unknown(u8),
}

/// The navaid type named by a raw 5-bit wire value: 0 means "not
/// available".
pub open spec fn spec_navaid(v: nat) -> Option<NavaidType> {
    if v == 0 {
        None
    } else if v == 1 {
        Some(NavaidType::ReferencePoint)
    } else if v == 2 {
        Some(NavaidType::Racon)
    } else if v == 3 {
        Some(NavaidType::FixedStructureOffShore)
    } else if v == 4 {
        Some(NavaidType::Spare)
    } else if v == 5 {
        Some(NavaidType::LightWithoutSectors)
    } else if v == 6 {
        Some(NavaidType::LightWithSectors)
    } else if v == 7 {
        Some(NavaidType::LeadingLightFront)
    } else if v == 8 {
        Some(NavaidType::LeadingLightRear)
    } else if v == 9 {
        Some(NavaidType::BeaconCardinalN)
    } else if v == 10 {
        Some(NavaidType::BeaconCardinalE)
    } else if v == 11 {
        Some(NavaidType::BeaconCardinalS)
    } else if v == 12 {
        Some(NavaidType::BeaconCardinalW)
    } else if v == 13 {
        Some(NavaidType::BeaconPortHand)
    } else if v == 14 {
        Some(NavaidType::BeaconStarboardHand)
    } else if v == 15 {
        Some(NavaidType::BeaconPreferredChannelPortHand)
    } else if v == 16 {
        Some(NavaidType::BeaconPreferredChannelStarboardHand)
    } else if v == 17 {
        Some(NavaidType::BeaconIsolatedDanger)
    } else if v == 18 {
        Some(NavaidType::BeaconSafeWater)
    } else if v == 19 {
        Some(NavaidType::BeaconSpecialMark)
    } else if v == 20 {
        Some(NavaidType::CardinalMarkN)
    } else if v == 21 {
        Some(NavaidType::CardinalMarkE)
    } else if v == 22 {
        Some(NavaidType::CardinalMarkS)
    } else if v == 23 {
        Some(NavaidType::CardinalMarkW)
    } else if v == 24 {
        Some(NavaidType::PortHandMark)
    } else if v == 25 {
        Some(NavaidType::StarboardHandMark)
    } else if v == 26 {
        Some(NavaidType::PreferredChannelPortHand)
    } else if v == 27 {
        Some(NavaidType::PreferredChannelStarboardHand)
    } else if v == 28 {
        Some(NavaidType::IsolatedDanger)
    } else if v == 29 {
        Some(NavaidType::SafeWater)
    } else if v == 30 {
        Some(NavaidType::SpecialMark)
    } else if v == 31 {
        Some(NavaidType::LightVesselOrLanbyOrRigs)
    } else {
        Some(NavaidType::Unknown(v as u8))
    }
}

impl NavaidType {
    /// Decodes the 5-bit navaid type; the sentinel 0 decodes to `None`.
    pub fn parse(data: u8) -> (r: Option<Self>)
        ensures
            r == spec_navaid(data as nat),
    {
        match data {
            0 => None,
            1 => Some(Self::ReferencePoint),
            2 => Some(Self::Racon),
            3 => Some(Self::FixedStructureOffShore),
            4 => Some(Self::Spare),
            5 => Some(Self::LightWithoutSectors),
            6 => Some(Self::LightWithSectors),
            7 => Some(Self::LeadingLightFront),
            8 => Some(Self::LeadingLightRear),
            9 => Some(Self::BeaconCardinalN),
            10 => Some(Self::BeaconCardinalE),
            11 => Some(Self::BeaconCardinalS),
            12 => Some(Self::BeaconCardinalW),
            13 => Some(Self::BeaconPortHand),
            14 => Some(Self::BeaconStarboardHand),
            15 => Some(Self::BeaconPreferredChannelPortHand),
            16 => Some(Self::BeaconPreferredChannelStarboardHand),
            17 => Some(Self::BeaconIsolatedDanger),
            18 => Some(Self::BeaconSafeWater),
            19 => Some(Self::BeaconSpecialMark),
            20 => Some(Self::CardinalMarkN),
            21 => Some(Self::CardinalMarkE),
            22 => Some(Self::CardinalMarkS),
            23 => Some(Self::CardinalMarkW),
            24 => Some(Self::PortHandMark),
            25 => Some(Self::StarboardHandMark),
            26 => Some(Self::PreferredChannelPortHand),
            27 => Some(Self::PreferredChannelStarboardHand),
            28 => Some(Self::IsolatedDanger),
            29 => Some(Self::SafeWater),
            30 => Some(Self::SpecialMark),
            31 => Some(Self::LightVesselOrLanbyOrRigs),
            _ => Some(Self::Unknown(data)),
        }
    }
}

/// An aid-to-navigation report: the aid's name, position, extent and
/// status flags.
#[derive(Debug, PartialEq)]
pub struct AidToNavigationReport {
    pub message_type: u8,
    pub repeat_indicator: u8,
    pub mmsi: u32,
    pub aid_type: Option<NavaidType>,
    pub name: String,
    pub accuracy: Accuracy,
    pub longitude: Option<i32>,
    pub latitude: Option<i32>,
    pub dimension_to_bow: u16,
    pub dimension_to_stern: u16,
    pub dimension_to_port: u16,
    pub dimension_to_starboard: u16,
    pub epfd_type: Option<EpfdType>,
    pub utc_second: u8,
    pub off_position: bool,
    pub regional_reserved: u8,
    pub raim: bool,
    pub virtual_aid: bool,
    pub assigned_mode: bool,
}

impl AidToNavigationReport {
    /// Every field of `self` is the decoding of its bit field in `d`.
    pub open spec fn decodes(self, d: Seq<u8>) -> bool {
        &&& self.message_type == bits_u(d, 0, 6)
        &&& self.repeat_indicator == bits_u(d, 6, 2)
        &&& self.mmsi == bits_u(d, 8, 30)
        &&& self.aid_type == spec_navaid(bits_u(d, 38, 5))
        &&& self.name@ == sixbit_text(d, 43, 20)
        &&& self.accuracy == Accuracy::spec_parse(bits_u(d, 163, 1))
        &&& self.longitude == spec_longitude(bits_i(d, 164, 28))
        &&& self.latitude == spec_latitude(bits_i(d, 192, 27))
        &&& self.dimension_to_bow == bits_u(d, 219, 9)
        &&& self.dimension_to_stern == bits_u(d, 228, 9)
        &&& self.dimension_to_port == bits_u(d, 237, 6)
        &&& self.dimension_to_starboard == bits_u(d, 243, 6)
        &&& self.epfd_type == spec_epfd(bits_u(d, 249, 4))
        &&& self.utc_second == bits_u(d, 253, 6)
        &&& self.off_position == (bits_u(d, 259, 1) == 1)
        &&& self.regional_reserved == bits_u(d, 260, 8)
        &&& self.raim == (bits_u(d, 268, 1) == 1)
        &&& self.virtual_aid == (bits_u(d, 269, 1) == 1)
        &&& self.assigned_mode == (bits_u(d, 270, 1) == 1)
    }

    /// Decodes a 272-bit aid-to-navigation report from an unarmored
    /// bitstream. A trailing name extension, when present, is left
    /// unread.
    pub fn parse(data: &[u8]) -> (r: Result<Self, Error>)
        requires
            data@.len() * 8 <= usize::MAX,
        ensures
            r is Ok <==> data@.len() * 8 >= 272,
            r matches Ok(m) ==> m.decodes(data@),
            r is Err ==> r == Err::<Self, Error>(Error::UnexpectedEnd),
    {
        proof {
            vstd::arithmetic::power2::lemma2_to64();
        }
        let (p, message_type) = take_u(data, 0, 6)?;
        let (p, repeat_indicator) = take_u(data, p, 2)?;
        let (p, mmsi) = take_u(data, p, 30)?;
        let (p, aid_type) = take_u(data, p, 5)?;
        let (p, name) = parse_6bit_ascii(data, p, 120)?;
        let (p, acc) = take_u(data, p, 1)?;
        let (p, lon) = take_i(data, p, 28)?;
        let (p, lat) = take_i(data, p, 27)?;
        let (p, dimension_to_bow) = take_u(data, p, 9)?;
        let (p, dimension_to_stern) = take_u(data, p, 9)?;
        let (p, dimension_to_port) = take_u(data, p, 6)?;
        let (p, dimension_to_starboard) = take_u(data, p, 6)?;
        let (p, epfd) = take_u(data, p, 4)?;
        let (p, utc_second) = take_u(data, p, 6)?;
        let (p, off_position) = take_u(data, p, 1)?;
        let (p, regional_reserved) = take_u(data, p, 8)?;
        let (p, raim) = take_u(data, p, 1)?;
        let (p, virtual_aid) = take_u(data, p, 1)?;
        let (p, assigned_mode) = take_u(data, p, 1)?;
        let (_p, _spare) = take_u(data, p, 1)?;
        proof {
            crate::bits::lemma_bits_u_bound(data@, 0, 6);
            crate::bits::lemma_bits_u_bound(data@, 6, 2);
            crate::bits::lemma_bits_u_bound(data@, 38, 5);
            crate::bits::lemma_bits_u_bound(data@, 163, 1);
            crate::bits::lemma_bits_u_bound(data@, 219, 9);
            crate::bits::lemma_bits_u_bound(data@, 228, 9);
            crate::bits::lemma_bits_u_bound(data@, 237, 6);
            crate::bits::lemma_bits_u_bound(data@, 243, 6);
            crate::bits::lemma_bits_u_bound(data@, 249, 4);
            crate::bits::lemma_bits_u_bound(data@, 253, 6);
            crate::bits::lemma_bits_u_bound(data@, 259, 1);
            crate::bits::lemma_bits_u_bound(data@, 260, 8);
            crate::bits::lemma_bits_u_bound(data@, 268, 1);
            crate::bits::lemma_bits_u_bound(data@, 269, 1);
            crate::bits::lemma_bits_u_bound(data@, 270, 1);
        }
        Ok(
            AidToNavigationReport {
                message_type: message_type as u8,
                repeat_indicator: repeat_indicator as u8,
                mmsi,
                aid_type: NavaidType::parse(aid_type as u8),
                name,
                accuracy: Accuracy::parse(acc as u8),
                longitude: crate::messages::navigation::parse_longitude(lon),
                latitude: crate::messages::navigation::parse_latitude(lat),
                dimension_to_bow: dimension_to_bow as u16,
                dimension_to_stern: dimension_to_stern as u16,
                dimension_to_port: dimension_to_port as u16,
                dimension_to_starboard: dimension_to_starboard as u16,
                epfd_type: EpfdType::parse(epfd as u8),
                utc_second: utc_second as u8,
                off_position: crate::messages::parsers::u8_to_bool(off_position as u8),
                regional_reserved: regional_reserved as u8,
                raim: crate::messages::parsers::u8_to_bool(raim as u8),
                virtual_aid: crate::messages::parsers::u8_to_bool(virtual_aid as u8),
                assigned_mode: crate::messages::parsers::u8_to_bool(assigned_mode as u8),
            },
        )
    }
}

impl<'a> crate::messages::AisMessageType<'a> for AidToNavigationReport {
    open spec fn spec_name() -> Seq<char> {
        "Aid to Navigation Report"@
    }

    fn name(&self) -> (r: &'static str) {
        "Aid to Navigation Report"
    }

    fn parse(data: &'a [u8]) -> (r: Result<Self, Error>) {
        AidToNavigationReport::parse(data)
    }
}

} // verus!

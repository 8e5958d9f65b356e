//! Group Assignment Command (type 23).
use crate::bits::{bits_i, bits_u, take_i, take_u};
use crate::errors::Error;
use crate::messages::navigation::{spec_latitude, spec_longitude};
use crate::messages::types::{spec_ship_type, ShipType};
use vstd::prelude::*;

verus! {

/// Transmit and receive mode commanded of the addressed stations.
#[derive(Debug, PartialEq, Eq, Copy, Clone)]
pub enum TransmitMode {
    TxATxBRxARxB,
    TxARxARxB,
    TxBRxaRxB,
    Reserved,
}

/// The transmit mode named by a raw 2-bit wire value.
pub open spec fn spec_transmit_mode(v: nat) -> TransmitMode {
    if v == 0 {
        TransmitMode::TxATxBRxARxB
    } else if v == 1 {
        TransmitMode::TxARxARxB
    } else if v == 2 {
        TransmitMode::TxBRxaRxB
    } else {
        TransmitMode::Reserved
    }
}

impl TransmitMode {
    /// Decodes the 2-bit transmit mode.
    pub fn parse(data: u8) -> (r: Self)
        requires
            data <= 3,
        ensures
            r == spec_transmit_mode(data as nat),
    {
        match data {
            0 => Self::TxATxBRxARxB,
            1 => Self::TxARxARxB,
            2 => Self::TxBRxaRxB,
            _ => Self::Reserved,
        }
    }
}

/// Category of station addressed by the command.
#[derive(Debug, PartialEq, Eq, Copy, Clone)]
pub enum StationType {
    AllMobiles,
    Reserved,
    AllClassB,
    SarAirborneMobile,
    AidToNavigation,
    ClassBShipborneMobile,
    RegionalUseAndInlandWaterways,
}

/// The station type named by a raw 4-bit wire value.
pub open spec fn spec_station_type(v: nat) -> StationType {
    if v == 0 {
        StationType::AllMobiles
    } else if v == 1 {
        StationType::Reserved
    } else if v == 2 {
        StationType::AllClassB
    } else if v == 3 {
        StationType::SarAirborneMobile
    } else if v == 4 {
        StationType::AidToNavigation
    } else if v == 5 {
        StationType::ClassBShipborneMobile
    } else if 6 <= v <= 9 {
        StationType::RegionalUseAndInlandWaterways
    } else {
        StationType::Reserved
    }
}

impl StationType {
    /// Decodes the 4-bit station type.
    pub fn parse(data: u8) -> (r: Self)
        requires
            data <= 15,
        ensures
            r == spec_station_type(data as nat),
    {
        match data {
            0 => Self::AllMobiles,
            1 => Self::Reserved,
            2 => Self::AllClassB,
            3 => Self::SarAirborneMobile,
            4 => Self::AidToNavigation,
            5 => Self::ClassBShipborneMobile,
            6 | 7 | 8 | 9 => Self::RegionalUseAndInlandWaterways,
            _ => Self::Reserved,
        }
    }
}

/// Reporting interval commanded of the addressed stations. A `Span`
/// carries its length in whole seconds.
#[derive(Debug, PartialEq, Eq, Copy, Clone)]
pub enum StationInterval {
    AsAutonomousMode,
    Span(u16),
    NextShorterInterval,
    NextLongerInterval,
    Reserved(u8),
}

/// The reporting interval named by a raw 4-bit wire value.
pub open spec fn spec_station_interval(v: nat) -> StationInterval {
    if v == 0 {
        StationInterval::AsAutonomousMode
    } else if v == 1 {
        StationInterval::Span(600)
    } else if v == 2 {
        StationInterval::Span(360)
    } else if v == 3 {
        StationInterval::Span(180)
    } else if v == 4 {
        StationInterval::Span(60)
    } else if v == 5 {
        StationInterval::Span(30)
    } else if v == 6 {
        StationInterval::Span(15)
    } else if v == 7 {
        StationInterval::Span(10)
    } else if v == 8 {
        StationInterval::Span(5)
    } else if v == 9 {
        StationInterval::NextShorterInterval
    } else if v == 10 {
        StationInterval::NextLongerInterval
    } else {
        StationInterval::Reserved(v as u8)
    }
}

impl StationInterval {
    /// Decodes the 4-bit reporting interval.
    pub fn parse(data: u8) -> (r: Self)
        requires
            data <= 15,
        ensures
            r == spec_station_interval(data as nat),
    {
        match data {
            0 => Self::AsAutonomousMode,
            1 => Self::Span(600),
            2 => Self::Span(360),
            3 => Self::Span(180),
            4 => Self::Span(60),
            5 => Self::Span(30),
            6 => Self::Span(15),
            7 => Self::Span(10),
            8 => Self::Span(5),
            9 => Self::NextShorterInterval,
            10 => Self::NextLongerInterval,
            _ => Self::Reserved(data),
        }
    }
}

/// Wire quiet time in minutes, 4 bits: 0 means no quiet time commanded.
pub open spec fn spec_quiet_time(v: nat) -> Option<u8>
    recommends
        v < 16,
{
    if v == 0 {
        None
    } else {
        Some(v as u8)
    }
}

/// A command assigning behaviour to all stations in a rectangular region.
/// The corner coordinates are raw 18- and 17-bit signed values, in 1/10000
/// degree.
#[derive(Debug, PartialEq)]
pub struct GroupAssignmentCommand {
    pub message_type: u8,
    pub repeat_indicator: u8,
    pub mmsi: u32,
    pub ne_longitude: Option<i32>,
    pub ne_latitude: Option<i32>,
    pub sw_longitude: Option<i32>,
    pub sw_latitude: Option<i32>,
    pub station_type: StationType,
    pub ship_type: Option<ShipType>,
    pub tx_rx_mode: TransmitMode,
    pub report_interval: StationInterval,
    pub quiet_time: Option<u8>,
}

impl GroupAssignmentCommand {
    /// Every field of `self` is the decoding of its bit field in `d`.
    pub open spec fn decodes(self, d: Seq<u8>) -> bool {
        &&& self.message_type == bits_u(d, 0, 6)
        &&& self.repeat_indicator == bits_u(d, 6, 2)
        &&& self.mmsi == bits_u(d, 8, 30)
        &&& self.ne_longitude == spec_longitude(bits_i(d, 40, 18))
        &&& self.ne_latitude == spec_latitude(bits_i(d, 58, 17))
        &&& self.sw_longitude == spec_longitude(bits_i(d, 75, 18))
        &&& self.sw_latitude == spec_latitude(bits_i(d, 93, 17))
        &&& self.station_type == spec_station_type(bits_u(d, 110, 4))
        &&& self.ship_type == spec_ship_type(bits_u(d, 114, 8))
        &&& self.tx_rx_mode == spec_transmit_mode(bits_u(d, 144, 2))
        &&& self.report_interval == spec_station_interval(bits_u(d, 146, 4))
        &&& self.quiet_time == spec_quiet_time(bits_u(d, 150, 4))
    }

    /// Decodes a 160-bit group assignment command from an unarmored
    /// bitstream.
    pub fn parse(data: &[u8]) -> (r: Result<Self, Error>)
        requires
            data@.len() * 8 <= usize::MAX,
        ensures
            r is Ok <==> data@.len() * 8 >= 160,
            r matches Ok(m) ==> m.decodes(data@),
            r is Err ==> r == Err::<Self, Error>(Error::UnexpectedEnd),
    {
        proof {
            vstd::arithmetic::power2::lemma2_to64();
        }
        let (p, message_type) = take_u(data, 0, 6)?;
        let (p, repeat_indicator) = take_u(data, p, 2)?;
        let (p, mmsi) = take_u(data, p, 30)?;
        let (p, _spare) = take_u(data, p, 2)?;
        let (p, ne_lon) = take_i(data, p, 18)?;
        let (p, ne_lat) = take_i(data, p, 17)?;
        let (p, sw_lon) = take_i(data, p, 18)?;
        let (p, sw_lat) = take_i(data, p, 17)?;
        let (p, station_type) = take_u(data, p, 4)?;
        let (p, ship_type) = take_u(data, p, 8)?;
        let (p, _spare2) = take_u(data, p, 22)?;
        let (p, tx_rx_mode) = take_u(data, p, 2)?;
        let (p, report_interval) = take_u(data, p, 4)?;
        let (p, quiet_time) = take_u(data, p, 4)?;
        let (_p, _spare3) = take_u(data, p, 6)?;
        proof {
            crate::bits::lemma_bits_u_bound(data@, 0, 6);
            crate::bits::lemma_bits_u_bound(data@, 6, 2);
            crate::bits::lemma_bits_u_bound(data@, 110, 4);
            crate::bits::lemma_bits_u_bound(data@, 114, 8);
            crate::bits::lemma_bits_u_bound(data@, 144, 2);
            crate::bits::lemma_bits_u_bound(data@, 146, 4);
            crate::bits::lemma_bits_u_bound(data@, 150, 4);
        }
        let quiet_time = if quiet_time == 0 {
            None
        } else {
            Some(quiet_time as u8)
        };
        Ok(
            GroupAssignmentCommand {
                message_type: message_type as u8,
                repeat_indicator: repeat_indicator as u8,
                mmsi,
                ne_longitude: crate::messages::navigation::parse_longitude(ne_lon),
                ne_latitude: crate::messages::navigation::parse_latitude(ne_lat),
                sw_longitude: crate::messages::navigation::parse_longitude(sw_lon),
                sw_latitude: crate::messages::navigation::parse_latitude(sw_lat),
                station_type: StationType::parse(station_type as u8),
                ship_type: ShipType::parse(ship_type as u8),
                tx_rx_mode: TransmitMode::parse(tx_rx_mode as u8),
                report_interval: StationInterval::parse(report_interval as u8),
                quiet_time,
            },
        )
    }
}

impl<'a> crate::messages::AisMessageType<'a> for GroupAssignmentCommand {
    open spec fn spec_name() -> Seq<char> {
        "Group Assignment Command"@
    }

    fn name(&self) -> (r: &'static str) {
        "Group Assignment Command"
    }

    fn parse(data: &'a [u8]) -> (r: Result<Self, Error>) {
        GroupAssignmentCommand::parse(data)
    }
}

} // verus!

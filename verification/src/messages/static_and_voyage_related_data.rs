//! Static and Voyage Related Data (type 5).
use crate::bits::{bits_u, take_u};
use crate::errors::Error;
use crate::messages::parsers::{
    parse_6bit_ascii, parse_day, parse_hour, parse_minsec, parse_month, sixbit_text, spec_day,
    spec_minsec, spec_month,
};
use crate::messages::types::{spec_dte, spec_epfd, spec_ship_type, Dte, EpfdType, ShipType};
use vstd::prelude::*;

verus! {

/// How many six-bit characters the destination field holds in a stream of
/// `bits` bits: up to twenty, fewer when the message is truncated.
pub open spec fn spec_destination_count(bits: int) -> nat {
    if bits <= 302 {
        0
    } else if bits - 302 < 120 {
        (((bits - 302) / 6)) as nat
    } else {
        20
    }
}

/// A vessel's static and voyage-related data. The draught is kept raw, in
/// tenths of metres.
#[derive(Debug, PartialEq)]
pub struct StaticAndVoyageRelatedData {
    pub message_type: u8,
    pub repeat_indicator: u8,
    pub mmsi: u32,
    pub ais_version: u8,
    pub imo_number: u32,
    pub callsign: String,
    pub vessel_name: String,
    pub ship_type: Option<ShipType>,
    pub dimension_to_bow: u16,
    pub dimension_to_stern: u16,
    pub dimension_to_port: u16,
    pub dimension_to_starboard: u16,
    pub epfd_type: Option<EpfdType>,
    pub eta_month_utc: Option<u8>,
    pub eta_day_utc: Option<u8>,
    pub eta_hour_utc: u8,
    pub eta_minute_utc: Option<u8>,
    pub draught: u8,
    pub destination: String,
    pub dte: Dte,
}

impl StaticAndVoyageRelatedData {
    /// Every field of `self` is the decoding of its bit field in `d`.
    /// Real-world senders truncate the tail: the destination takes what
    /// is there, and a missing DTE bit defaults to `NotReady`.
    pub open spec fn decodes(self, d: Seq<u8>) -> bool {
        let cnt = spec_destination_count(8 * (d.len() as int));
        &&& self.message_type == bits_u(d, 0, 6)
        &&& self.repeat_indicator == bits_u(d, 6, 2)
        &&& self.mmsi == bits_u(d, 8, 30)
        &&& self.ais_version == bits_u(d, 38, 2)
        &&& self.imo_number == bits_u(d, 40, 30)
        &&& self.callsign@ == sixbit_text(d, 70, 7)
        &&& self.vessel_name@ == sixbit_text(d, 112, 20)
        &&& self.ship_type == spec_ship_type(bits_u(d, 232, 8))
        &&& self.dimension_to_bow == bits_u(d, 240, 9)
        &&& self.dimension_to_stern == bits_u(d, 249, 9)
        &&& self.dimension_to_port == bits_u(d, 258, 6)
        &&& self.dimension_to_starboard == bits_u(d, 264, 6)
        &&& self.epfd_type == spec_epfd(bits_u(d, 270, 4))
        &&& self.eta_month_utc == spec_month(bits_u(d, 274, 4))
        &&& self.eta_day_utc == spec_day(bits_u(d, 278, 5))
        &&& self.eta_hour_utc == bits_u(d, 283, 5)
        &&& self.eta_minute_utc == spec_minsec(bits_u(d, 288, 6))
        &&& self.draught == bits_u(d, 294, 8)
        &&& self.destination@ == sixbit_text(d, 302, cnt)
        &&& self.dte == (if 8 * d.len() > 302 + 6 * cnt {
            spec_dte(bits_u(d, 302 + 6 * (cnt as int), 1))
        } else {
            Dte::NotReady
        })
    }

    /// Decodes a static and voyage data report from an unarmored
    /// bitstream: at least the 302 bits up to the draught, with a
    /// possibly truncated destination and DTE tail.
    pub fn parse(data: &[u8]) -> (r: Result<Self, Error>)
        requires
            data@.len() * 8 <= usize::MAX,
        ensures
            r is Ok <==> data@.len() * 8 >= 302,
            r matches Ok(m) ==> m.decodes(data@),
            r is Err ==> r == Err::<Self, Error>(Error::UnexpectedEnd),
    {
        proof {
            vstd::arithmetic::power2::lemma2_to64();
        }
        let total = data.len() * 8;
        let (p, message_type) = take_u(data, 0, 6)?;
        let (p, repeat_indicator) = take_u(data, p, 2)?;
        let (p, mmsi) = take_u(data, p, 30)?;
        let (p, ais_version) = take_u(data, p, 2)?;
        let (p, imo_number) = take_u(data, p, 30)?;
        let (p, callsign) = parse_6bit_ascii(data, p, 42)?;
        let (p, vessel_name) = parse_6bit_ascii(data, p, 120)?;
        let (p, ship_type) = take_u(data, p, 8)?;
        let (p, dimension_to_bow) = take_u(data, p, 9)?;
        let (p, dimension_to_stern) = take_u(data, p, 9)?;
        let (p, dimension_to_port) = take_u(data, p, 6)?;
        let (p, dimension_to_starboard) = take_u(data, p, 6)?;
        let (p, epfd) = take_u(data, p, 4)?;
        let (p, eta_month_utc) = parse_month(data, p)?;
        let (p, eta_day_utc) = parse_day(data, p)?;
        let (p, eta_hour_utc) = parse_hour(data, p)?;
        let (p, eta_minute_utc) = parse_minsec(data, p)?;
        let (p, draught) = take_u(data, p, 8)?;
        proof {
            crate::bits::lemma_bits_u_bound(data@, 0, 6);
            crate::bits::lemma_bits_u_bound(data@, 6, 2);
            crate::bits::lemma_bits_u_bound(data@, 38, 2);
            crate::bits::lemma_bits_u_bound(data@, 232, 8);
            crate::bits::lemma_bits_u_bound(data@, 240, 9);
            crate::bits::lemma_bits_u_bound(data@, 249, 9);
            crate::bits::lemma_bits_u_bound(data@, 258, 6);
            crate::bits::lemma_bits_u_bound(data@, 264, 6);
            crate::bits::lemma_bits_u_bound(data@, 270, 4);
            crate::bits::lemma_bits_u_bound(data@, 294, 8);
        }
        let rem = total - p;
        let size = if rem < 120 {
            rem
        } else {
            120
        };
        proof {
            assert((size / 6) * 6 <= size) by (nonlinear_arith);
            assert(size / 6 == spec_destination_count(total as int));
        }
        let (p, destination) = parse_6bit_ascii(data, p, size)?;
        let dte = if total - p > 0 {
            let (_q, b) = take_u(data, p, 1)?;
            proof {
                crate::bits::lemma_bits_u_bound(data@, p as int, 1);
            }
            Dte::parse(b as u8)
        } else {
            Dte::NotReady
        };
        Ok(
            StaticAndVoyageRelatedData {
                message_type: message_type as u8,
                repeat_indicator: repeat_indicator as u8,
                mmsi,
                ais_version: ais_version as u8,
                imo_number,
                callsign,
                vessel_name,
                ship_type: ShipType::parse(ship_type as u8),
                dimension_to_bow: dimension_to_bow as u16,
                dimension_to_stern: dimension_to_stern as u16,
                dimension_to_port: dimension_to_port as u16,
                dimension_to_starboard: dimension_to_starboard as u16,
                epfd_type: EpfdType::parse(epfd as u8),
                eta_month_utc,
                eta_day_utc,
                eta_hour_utc,
                eta_minute_utc,
                draught: draught as u8,
                destination,
                dte,
            },
        )
    }
}

impl<'a> crate::messages::AisMessageType<'a> for StaticAndVoyageRelatedData {
    open spec fn spec_name() -> Seq<char> {
        "Static and Voyage Related Data"@
    }

    fn name(&self) -> (r: &'static str) {
        "Static and Voyage Related Data"
    }

    fn parse(data: &'a [u8]) -> (r: Result<Self, Error>) {
        StaticAndVoyageRelatedData::parse(data)
    }
}

} // verus!

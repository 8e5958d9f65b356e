//! UTC/Date Response (type 11), laid out exactly as the base station
//! report.
use crate::bits::{bits_i, bits_u, take_i, take_u};
use crate::errors::Error;
use crate::messages::navigation::{spec_latitude, spec_longitude, Accuracy};
use crate::messages::parsers::{
    parse_day, parse_hour, parse_minsec, parse_month, parse_year, spec_day, spec_minsec,
    spec_month, spec_year,
};
use crate::messages::radio_status::{parse_radio, spec_radio, RadioStatus};
use crate::messages::types::{spec_epfd, EpfdType};
use vstd::prelude::*;

verus! {

/// A UTC/date response: UTC date and time, position and radio status.
/// The hour field keeps the raw wire value, with 24 as the "not
/// available" marker; the other calendar fields decode their sentinels to
/// `None`.
#[derive(Debug, PartialEq)]
pub struct UtcDateResponse {
    pub message_type: u8,
    pub repeat_indicator: u8,
    pub mmsi: u32,
    pub year: Option<u16>,
    pub month: Option<u8>,
    pub day: Option<u8>,
    pub hour: u8,
    pub minute: Option<u8>,
    pub second: Option<u8>,
    pub fix_quality: Accuracy,
    pub longitude: Option<i32>,
    pub latitude: Option<i32>,
    pub epfd_type: Option<EpfdType>,
    pub raim: bool,
    pub radio_status: RadioStatus,
}

impl UtcDateResponse {
    /// Every field of `self` is the decoding of its bit field in `d`.
    pub open spec fn decodes(self, d: Seq<u8>) -> bool {
        &&& self.message_type == bits_u(d, 0, 6)
        &&& self.repeat_indicator == bits_u(d, 6, 2)
        &&& self.mmsi == bits_u(d, 8, 30)
        &&& self.year == spec_year(bits_u(d, 38, 14))
        &&& self.month == spec_month(bits_u(d, 52, 4))
        &&& self.day == spec_day(bits_u(d, 56, 5))
        &&& self.hour == bits_u(d, 61, 5)
        &&& self.minute == spec_minsec(bits_u(d, 66, 6))
        &&& self.second == spec_minsec(bits_u(d, 72, 6))
        &&& self.fix_quality == Accuracy::spec_parse(bits_u(d, 78, 1))
        &&& self.longitude == spec_longitude(bits_i(d, 79, 28))
        &&& self.latitude == spec_latitude(bits_i(d, 107, 27))
        &&& self.epfd_type == spec_epfd(bits_u(d, 134, 4))
        &&& self.raim == (bits_u(d, 148, 1) == 1)
        &&& self.radio_status == spec_radio(d, 149, bits_u(d, 0, 6))
    }

    /// Decodes a 168-bit UTC/date response from an unarmored bitstream.
    /// Fails with `UnexpectedEnd` on a short stream, and with a framing
    /// error when the leading type field names no radio-status scheme.
    pub fn parse(data: &[u8]) -> (r: Result<Self, Error>)
        requires
            data@.len() * 8 <= usize::MAX,
        ensures
            r is Ok <==> data@.len() * 8 >= 168
                && crate::messages::position_report::PositionReport::radio_type(
                bits_u(data@, 0, 6),
            ),
            r matches Ok(m) ==> m.decodes(data@),
            r is Err && (data@.len() * 8 < 149
                || (crate::messages::position_report::PositionReport::radio_type(
                bits_u(data@, 0, 6),
            ) && data@.len() * 8 < 168)) ==> r == Err::<Self, Error>(Error::UnexpectedEnd),
    {
        proof {
            vstd::arithmetic::power2::lemma2_to64();
        }
        let (p, message_type) = take_u(data, 0, 6)?;
        let (p, repeat_indicator) = take_u(data, p, 2)?;
        let (p, mmsi) = take_u(data, p, 30)?;
        let (p, year) = parse_year(data, p)?;
        let (p, month) = parse_month(data, p)?;
        let (p, day) = parse_day(data, p)?;
        let (p, hour) = parse_hour(data, p)?;
        let (p, minute) = parse_minsec(data, p)?;
        let (p, second) = parse_minsec(data, p)?;
        let (p, acc) = take_u(data, p, 1)?;
        let (p, lon) = take_i(data, p, 28)?;
        let (p, lat) = take_i(data, p, 27)?;
        let (p, epfd) = take_u(data, p, 4)?;
        let (p, _spare) = take_u(data, p, 10)?;
        let (p, raim) = take_u(data, p, 1)?;
        proof {
            crate::bits::lemma_bits_u_bound(data@, 0, 6);
            crate::bits::lemma_bits_u_bound(data@, 6, 2);
            crate::bits::lemma_bits_u_bound(data@, 78, 1);
            crate::bits::lemma_bits_u_bound(data@, 134, 4);
            crate::bits::lemma_bits_u_bound(data@, 148, 1);
        }
        let mt = message_type as u8;
        if !(mt == 1 || mt == 2 || mt == 3 || mt == 4 || mt == 11) {
            return Err(
                Error::Nmea { msg: "no radio status scheme for this message type".to_owned() },
            );
        }
        let (_, radio_status) = parse_radio(data, p, mt)?;
        Ok(
            UtcDateResponse {
                message_type: mt,
                repeat_indicator: repeat_indicator as u8,
                mmsi,
                year,
                month,
                day,
                hour,
                minute,
                second,
                fix_quality: Accuracy::parse(acc as u8),
                longitude: crate::messages::navigation::parse_longitude(lon),
                latitude: crate::messages::navigation::parse_latitude(lat),
                epfd_type: EpfdType::parse(epfd as u8),
                raim: crate::messages::parsers::u8_to_bool(raim as u8),
                radio_status,
            },
        )
    }
}

impl<'a> crate::messages::AisMessageType<'a> for UtcDateResponse {
    open spec fn spec_name() -> Seq<char> {
        "UTC/Date Response"@
    }

    fn name(&self) -> (r: &'static str) {
        "UTC/Date Response"
    }

    fn parse(data: &'a [u8]) -> (r: Result<Self, Error>) {
        UtcDateResponse::parse(data)
    }
}

} // verus!

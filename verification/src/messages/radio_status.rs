//! Radio status substructures: the 19-bit SOTDMA and ITDMA words carried
//! at the tail of position and base-station reports.
use crate::bits::{bits_i, bits_u, take_i, take_u};
use crate::errors::Error;
use vstd::prelude::*;

verus! {

/// The two radio access schemes whose status words appear on the wire.
#[derive(Debug, PartialEq, Eq)]
pub enum RadioStatus {
    Sotdma(SotdmaMessage),
    Itdma(ItdmaMessage),
}

/// Synchronisation state of the transmitting station.
#[derive(Debug, PartialEq, Eq, Copy, Clone)]
pub enum SyncState {
    UtcDirect,
    UtcIndirect,
    BaseStation,
    NumberOfReceivedStations,
    Unknown(u8),
}

impl SyncState {
    /// The state named by a raw 2-bit wire value.
    pub open spec fn spec_parse(v: nat) -> SyncState {
        if v == 0 {
            SyncState::UtcDirect
        } else if v == 1 {
            SyncState::UtcIndirect
        } else if v == 2 {
            SyncState::BaseStation
        } else if v == 3 {
            SyncState::NumberOfReceivedStations
        } else {
            SyncState::Unknown(v as u8)
        }
    }

    /// Decodes the 2-bit synchronisation state.
    pub fn parse(data: u8) -> (r: Self)
        ensures
            r == Self::spec_parse(data as nat),
    {
        match data {
            0 => SyncState::UtcDirect,
            1 => SyncState::UtcIndirect,
            2 => SyncState::BaseStation,
            3 => SyncState::NumberOfReceivedStations,
            _ => Self::Unknown(data),
        }
    }
}

/// The SOTDMA submessage, whose meaning depends on the slot-timeout value
/// read just before it.
#[derive(Debug, PartialEq, Eq)]
pub enum SubMessage {
    SlotOffset(i16),
    UtcHourAndMinute(u8, u8),
    SlotNumber(u16),
    ReceivedStations(u16),
}

/// The 14-bit SOTDMA submessage at `pos`, selected by `slot_timeout`:
/// 0 carries a signed slot offset, 1 the UTC hour and minute, 2, 4 and 6 a
/// slot number, 3, 5 and 7 a count of received stations.
pub open spec fn spec_sub_message(d: Seq<u8>, pos: int, slot_timeout: nat) -> SubMessage {
    if slot_timeout == 0 {
        SubMessage::SlotOffset(bits_i(d, pos, 14) as i16)
    } else if slot_timeout == 1 {
        SubMessage::UtcHourAndMinute(bits_u(d, pos, 5) as u8, bits_u(d, pos + 6, 6) as u8)
    } else if slot_timeout == 2 || slot_timeout == 4 || slot_timeout == 6 {
        SubMessage::SlotNumber(bits_u(d, pos, 14) as u16)
    } else {
        SubMessage::ReceivedStations(bits_u(d, pos, 14) as u16)
    }
}

impl SubMessage {
    /// Decodes the 14-bit submessage selected by `slot_timeout`.
    fn parse(data: &[u8], pos: usize, slot_timeout: u8) -> (r: Result<(usize, SubMessage), Error>)
        requires
            slot_timeout <= 7,
            data@.len() * 8 <= usize::MAX,
        ensures
            r is Ok <==> pos + 14 <= data@.len() * 8,
            r matches Ok(p) ==> p.0 == pos + 14 && p.1 == spec_sub_message(
                data@,
                pos as int,
                slot_timeout as nat,
            ),
            r is Err ==> r == Err::<(usize, SubMessage), Error>(Error::UnexpectedEnd),
    {
        proof {
            vstd::arithmetic::power2::lemma2_to64();
        }
        if slot_timeout == 0 {
            let (np, v) = take_i(data, pos, 14)?;
            proof {
                crate::bits::lemma_bits_i_bound(data@, pos as int, 14);
            }
            Ok((np, SubMessage::SlotOffset(v as i16)))
        } else if slot_timeout == 1 {
            let (np, hour) = take_u(data, pos, 5)?;
            let (np, _spare) = take_u(data, np, 1)?;
            let (np, minute) = take_u(data, np, 6)?;
            let (np, _spare2) = take_u(data, np, 2)?;
            proof {
                crate::bits::lemma_bits_u_bound(data@, pos as int, 5);
                crate::bits::lemma_bits_u_bound(data@, pos as int + 6, 6);
            }
            Ok((np, SubMessage::UtcHourAndMinute(hour as u8, minute as u8)))
        } else {
            let (np, v) = take_u(data, pos, 14)?;
            proof {
                crate::bits::lemma_bits_u_bound(data@, pos as int, 14);
            }
            if slot_timeout == 2 || slot_timeout == 4 || slot_timeout == 6 {
                Ok((np, SubMessage::SlotNumber(v as u16)))
            } else {
                Ok((np, SubMessage::ReceivedStations(v as u16)))
            }
        }
    }
}

/// SOTDMA radio status: sync state, slot timeout and the dependent
/// submessage.
#[derive(Debug, PartialEq, Eq)]
pub struct SotdmaMessage {
    pub sync_state: SyncState,
    pub slot_timeout: u8,
    pub sub_message: SubMessage,
}

/// The 19-bit SOTDMA word at `pos`.
pub open spec fn spec_sotdma(d: Seq<u8>, pos: int) -> RadioStatus {
    RadioStatus::Sotdma(
        SotdmaMessage {
            sync_state: SyncState::spec_parse(bits_u(d, pos, 2)),
            slot_timeout: bits_u(d, pos + 2, 3) as u8,
            sub_message: spec_sub_message(d, pos + 5, bits_u(d, pos + 2, 3)),
        },
    )
}

impl SotdmaMessage {
    /// Decodes the 19-bit SOTDMA status word at `pos`.
    pub fn parse(data: &[u8], pos: usize) -> (r: Result<(usize, RadioStatus), Error>)
        requires
            data@.len() * 8 <= usize::MAX,
        ensures
            r is Ok <==> pos + 19 <= data@.len() * 8,
            r matches Ok(p) ==> p.0 == pos + 19 && p.1 == spec_sotdma(data@, pos as int),
            r is Err ==> r == Err::<(usize, RadioStatus), Error>(Error::UnexpectedEnd),
    {
        proof {
            vstd::arithmetic::power2::lemma2_to64();
        }
        let (np, sync) = take_u(data, pos, 2)?;
        let (np, slot_timeout) = take_u(data, np, 3)?;
        proof {
            crate::bits::lemma_bits_u_bound(data@, pos as int, 2);
            crate::bits::lemma_bits_u_bound(data@, pos as int + 2, 3);
        }
        let (np, sub_message) = SubMessage::parse(data, np, slot_timeout as u8)?;
        Ok(
            (
                np,
                RadioStatus::Sotdma(
                    SotdmaMessage {
                        sync_state: SyncState::parse(sync as u8),
                        slot_timeout: slot_timeout as u8,
                        sub_message,
                    },
                ),
            ),
        )
    }
}

/// ITDMA radio status: sync state, signed slot increment, slot count and
/// keep flag.
#[derive(Debug, PartialEq, Eq)]
pub struct ItdmaMessage {
    pub sync_state: SyncState,
    pub slot_increment: i16,
    pub num_slots: u8,
    pub keep: bool,
}

/// The 19-bit ITDMA word at `pos`.
pub open spec fn spec_itdma(d: Seq<u8>, pos: int) -> RadioStatus {
    RadioStatus::Itdma(
        ItdmaMessage {
            sync_state: SyncState::spec_parse(bits_u(d, pos, 2)),
            slot_increment: bits_i(d, pos + 2, 13) as i16,
            num_slots: bits_u(d, pos + 15, 3) as u8,
            keep: bits_u(d, pos + 18, 1) == 1,
        },
    )
}

impl ItdmaMessage {
    /// Decodes the 19-bit ITDMA status word at `pos`.
    pub fn parse(data: &[u8], pos: usize) -> (r: Result<(usize, RadioStatus), Error>)
        requires
            data@.len() * 8 <= usize::MAX,
        ensures
            r is Ok <==> pos + 19 <= data@.len() * 8,
            r matches Ok(p) ==> p.0 == pos + 19 && p.1 == spec_itdma(data@, pos as int),
            r is Err ==> r == Err::<(usize, RadioStatus), Error>(Error::UnexpectedEnd),
    {
        proof {
            vstd::arithmetic::power2::lemma2_to64();
        }
        let (np, sync) = take_u(data, pos, 2)?;
        let (np, slot_increment) = take_i(data, np, 13)?;
        let (np, num_slots) = take_u(data, np, 3)?;
        let (np, keep) = take_u(data, np, 1)?;
        proof {
            crate::bits::lemma_bits_u_bound(data@, pos as int, 2);
            crate::bits::lemma_bits_i_bound(data@, pos as int + 2, 13);
            crate::bits::lemma_bits_u_bound(data@, pos as int + 15, 3);
            crate::bits::lemma_bits_u_bound(data@, pos as int + 18, 1);
        }
        Ok(
            (
                np,
                RadioStatus::Itdma(
                    ItdmaMessage {
                        sync_state: SyncState::parse(sync as u8),
                        slot_increment: slot_increment as i16,
                        num_slots: num_slots as u8,
                        keep: crate::messages::parsers::u8_to_bool(keep as u8),
                    },
                ),
            ),
        )
    }
}

/// The 19-bit radio status at `pos` for message type `mt`: SOTDMA for
/// types 1, 2, 4 and 11, ITDMA for type 3.
pub open spec fn spec_radio(d: Seq<u8>, pos: int, mt: nat) -> RadioStatus {
    if mt == 3 {
        spec_itdma(d, pos)
    } else {
        spec_sotdma(d, pos)
    }
}

/// Decodes the 19-bit radio status of a type `msg_type` report: SOTDMA
/// for types 1, 2, 4 and 11, ITDMA for type 3.
pub fn parse_radio(data: &[u8], pos: usize, msg_type: u8) -> (r: Result<(usize, RadioStatus), Error>)
    requires
        msg_type == 1 || msg_type == 2 || msg_type == 3 || msg_type == 4 || msg_type == 11,
        data@.len() * 8 <= usize::MAX,
    ensures
        r is Ok <==> pos + 19 <= data@.len() * 8,
        r matches Ok(p) ==> p.0 == pos + 19 && p.1 == spec_radio(data@, pos as int, msg_type as nat),
        r is Err ==> r == Err::<(usize, RadioStatus), Error>(Error::UnexpectedEnd),
{
    if msg_type == 3 {
        ItdmaMessage::parse(data, pos)
    } else {
        SotdmaMessage::parse(data, pos)
    }
}

} // verus!

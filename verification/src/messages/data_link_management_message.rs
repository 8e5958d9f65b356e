//! Data Link Management Message (type 20).
use crate::bits::{bits_u, take_u};
use crate::errors::Error;
use vstd::prelude::*;

verus! {

/// One reserved block of slots offered by a base station.
#[derive(Debug, PartialEq, Eq)]
pub struct SlotReservation {
    pub offset: u16,
    pub num_slots: u8,
    pub timeout: u8,
    pub increment: u16,
}

impl SlotReservation {
    /// Decodes one 30-bit slot reservation at `pos`.
    pub fn parse(data: &[u8], pos: usize) -> (r: Result<(usize, SlotReservation), Error>)
        requires
            data@.len() * 8 <= usize::MAX,
        ensures
            r is Ok <==> pos + 30 <= data@.len() * 8,
            r matches Ok(p) ==> p.0 == pos + 30 && p.1.offset == bits_u(data@, pos as int, 12)
                && p.1.num_slots == bits_u(data@, pos as int + 12, 4) && p.1.timeout == bits_u(
                data@,
                pos as int + 16,
                3,
            ) && p.1.increment == bits_u(data@, pos as int + 19, 11),
            r is Err ==> r == Err::<(usize, SlotReservation), Error>(Error::UnexpectedEnd),
    {
        let (np, offset) = take_u(data, pos, 12)?;
        let (np, num_slots) = take_u(data, np, 4)?;
        let (np, timeout) = take_u(data, np, 3)?;
        let (np, increment) = take_u(data, np, 11)?;
        proof {
            crate::bits::lemma_bits_u_bound(data@, pos as int, 12);
            crate::bits::lemma_bits_u_bound(data@, pos as int + 12, 4);
            crate::bits::lemma_bits_u_bound(data@, pos as int + 16, 3);
            crate::bits::lemma_bits_u_bound(data@, pos as int + 19, 11);
            vstd::arithmetic::power2::lemma2_to64();
        }
        Ok(
            (
                np,
                SlotReservation {
                    offset: offset as u16,
                    num_slots: num_slots as u8,
                    timeout: timeout as u8,
                    increment: increment as u16,
                },
            ),
        )
    }
}

/// How many 30-bit slot reservations follow the 40-bit prelude of a
/// stream of `bits` bits: whatever fits, at most four.
pub open spec fn spec_reservation_count(bits: int) -> nat {
    if bits < 40 {
        0
    } else if (bits - 40) / 30 > 4 {
        4
    } else {
        ((bits - 40) / 30) as nat
    }
}

/// A data link management message: up to four slot reservations.
#[derive(Debug, PartialEq, Eq)]
pub struct DataLinkManagementMessage {
    pub message_type: u8,
    pub repeat_indicator: u8,
    pub mmsi: u32,
    pub reservations: Vec<SlotReservation>,
}

impl DataLinkManagementMessage {
    /// Every field of `self` is the decoding of its bit field in `d`; the
    /// reservation list holds every entry that fits, at most four.
    pub open spec fn decodes(self, d: Seq<u8>) -> bool {
        &&& self.message_type == bits_u(d, 0, 6)
        &&& self.repeat_indicator == bits_u(d, 6, 2)
        &&& self.mmsi == bits_u(d, 8, 30)
        &&& self.reservations@.len() == spec_reservation_count(8 * (d.len() as int))
        &&& forall|k: int|
            0 <= k < self.reservations@.len() ==> (#[trigger] self.reservations@[k]).offset
                == bits_u(d, 40 + 30 * k, 12) && self.reservations@[k].num_slots == bits_u(
                d,
                52 + 30 * k,
                4,
            ) && self.reservations@[k].timeout == bits_u(d, 56 + 30 * k, 3)
                && self.reservations@[k].increment == bits_u(d, 59 + 30 * k, 11)
    }

    /// Decodes a data link management message from an unarmored
    /// bitstream: the 40-bit prelude and at least one, at most four,
    /// 30-bit reservations.
    pub fn parse(data: &[u8]) -> (r: Result<Self, Error>)
        requires
            data@.len() * 8 <= usize::MAX,
        ensures
            r is Ok <==> data@.len() * 8 >= 70,
            r matches Ok(m) ==> m.decodes(data@),
            r is Err ==> r == Err::<Self, Error>(Error::UnexpectedEnd),
    {
        proof {
            vstd::arithmetic::power2::lemma2_to64();
        }
        let total = data.len() * 8;
        let (p, message_type) = take_u(data, 0, 6)?;
        let (p, repeat_indicator) = take_u(data, p, 2)?;
        let (p, mmsi) = take_u(data, p, 30)?;
        let (p, _spare) = take_u(data, p, 2)?;
        if total < 70 {
            return Err(Error::UnexpectedEnd);
        }
        let n = {
            let avail = (total - 40) / 30;
            if avail > 4 {
                4
            } else {
                avail
            }
        };
        proof {
            crate::bits::lemma_bits_u_bound(data@, 0, 6);
            crate::bits::lemma_bits_u_bound(data@, 6, 2);
            assert(n == spec_reservation_count(total as int));
            assert(n * 30 <= total - 40) by (nonlinear_arith)
                requires
                    n <= (total - 40) / 30,
            ;
        }
        let mut reservations: Vec<SlotReservation> = Vec::new();
        let mut k: usize = 0;
        let mut p: usize = p;
        while k < n
            invariant
                k <= n,
                p == 40 + 30 * k,
                n * 30 <= total - 40,
                total == data@.len() * 8,
                data@.len() * 8 <= usize::MAX,
                reservations@.len() == k,
                forall|t: int|
                    0 <= t < k ==> (#[trigger] reservations@[t]).offset == bits_u(
                        data@,
                        40 + 30 * t,
                        12,
                    ) && reservations@[t].num_slots == bits_u(data@, 52 + 30 * t, 4)
                        && reservations@[t].timeout == bits_u(data@, 56 + 30 * t, 3)
                        && reservations@[t].increment == bits_u(data@, 59 + 30 * t, 11),
            decreases n - k,
        {
            proof {
                assert((k + 1) * 30 <= n * 30) by (nonlinear_arith)
                    requires
                        k < n,
                ;
            }
            let (np, reservation) = SlotReservation::parse(data, p)?;
            reservations.push(reservation);
            p = np;
            k = k + 1;
        }
        Ok(
            DataLinkManagementMessage {
                message_type: message_type as u8,
                repeat_indicator: repeat_indicator as u8,
                mmsi,
                reservations,
            },
        )
    }
}

impl<'a> crate::messages::AisMessageType<'a> for DataLinkManagementMessage {
    open spec fn spec_name() -> Seq<char> {
        "Data Link Management Message"@
    }

    fn name(&self) -> (r: &'static str) {
        "Data Link Management Message"
    }

    fn parse(data: &'a [u8]) -> (r: Result<Self, Error>) {
        DataLinkManagementMessage::parse(data)
    }
}

} // verus!

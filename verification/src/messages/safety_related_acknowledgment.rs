//! Safety-Related Acknowledge (type 13), laid out exactly as the binary
//! acknowledge.
use crate::bits::{bits_u, take_u};
use crate::errors::Error;
use vstd::prelude::*;

verus! {

/// One acknowledged station: its MMSI and the sequence number of the
/// acknowledged message.
#[derive(Debug, PartialEq, Eq)]
pub struct Acknowledgement {
    pub mmsi: u32,
    pub seq_num: u8,
}

impl Acknowledgement {
    /// Decodes one 32-bit acknowledgement entry at `pos`.
    pub fn parse(data: &[u8], pos: usize) -> (r: Result<(usize, Acknowledgement), Error>)
        requires
            data@.len() * 8 <= usize::MAX,
        ensures
            r is Ok <==> pos + 32 <= data@.len() * 8,
            r matches Ok(p) ==> p.0 == pos + 32 && p.1.mmsi == bits_u(data@, pos as int, 30)
                && p.1.seq_num == bits_u(data@, pos as int + 30, 2),
            r is Err ==> r == Err::<(usize, Acknowledgement), Error>(Error::UnexpectedEnd),
    {
        let (np, mmsi) = take_u(data, pos, 30)?;
        let (np, seq_num) = take_u(data, np, 2)?;
        proof {
            crate::bits::lemma_bits_u_bound(data@, pos as int + 30, 2);
            vstd::arithmetic::power2::lemma2_to64();
        }
        Ok((np, Acknowledgement { mmsi, seq_num: seq_num as u8 }))
    }
}

/// How many 32-bit acknowledgement entries follow the 40-bit prelude of a
/// stream of `bits` bits: whatever fits, at most four.
pub open spec fn spec_ack_count(bits: int) -> nat {
    if bits < 40 {
        0
    } else if (bits - 40) / 32 > 4 {
        4
    } else {
        ((bits - 40) / 32) as nat
    }
}

/// A safety-related acknowledge: up to four acknowledgements of received
/// addressed safety-related messages.
#[derive(Debug, PartialEq, Eq)]
pub struct SafetyRelatedAcknowledge {
    pub message_type: u8,
    pub repeat_indicator: u8,
    pub mmsi: u32,
    pub acks: Vec<Acknowledgement>,
}

impl SafetyRelatedAcknowledge {
    /// Every field of `self` is the decoding of its bit field in `d`; the
    /// acknowledgement list holds every entry that fits, at most four.
    pub open spec fn decodes(self, d: Seq<u8>) -> bool {
        &&& self.message_type == bits_u(d, 0, 6)
        &&& self.repeat_indicator == bits_u(d, 6, 2)
        &&& self.mmsi == bits_u(d, 8, 30)
        &&& self.acks@.len() == spec_ack_count(8 * (d.len() as int))
        &&& forall|k: int|
            0 <= k < self.acks@.len() ==> (#[trigger] self.acks@[k]).mmsi == bits_u(
                d,
                40 + 32 * k,
                30,
            ) && self.acks@[k].seq_num == bits_u(d, 70 + 32 * k, 2)
    }

    /// Decodes a safety-related acknowledge from an unarmored bitstream: the
    /// 40-bit prelude and at least one, at most four, 32-bit entries.
    pub fn parse(data: &[u8]) -> (r: Result<Self, Error>)
        requires
            data@.len() * 8 <= usize::MAX,
        ensures
            r is Ok <==> data@.len() * 8 >= 72,
            r matches Ok(m) ==> m.decodes(data@),
            r is Err ==> r == Err::<Self, Error>(Error::UnexpectedEnd),
    {
        proof {
            vstd::arithmetic::power2::lemma2_to64();
        }
        let total = data.len() * 8;
        let (p, message_type) = take_u(data, 0, 6)?;
        let (p, repeat_indicator) = take_u(data, p, 2)?;
        let (p, mmsi) = take_u(data, p, 30)?;
        let (p, _spare) = take_u(data, p, 2)?;
        if total < 72 {
            return Err(Error::UnexpectedEnd);
        }
        let n = {
            let avail = (total - 40) / 32;
            if avail > 4 {
                4
            } else {
                avail
            }
        };
        proof {
            crate::bits::lemma_bits_u_bound(data@, 0, 6);
            crate::bits::lemma_bits_u_bound(data@, 6, 2);
            assert(n == spec_ack_count(total as int));
            assert(n * 32 <= total - 40) by (nonlinear_arith)
                requires
                    n <= (total - 40) / 32,
            ;
        }
        let mut acks: Vec<Acknowledgement> = Vec::new();
        let mut k: usize = 0;
        let mut p: usize = p;
        while k < n
            invariant
                k <= n,
                p == 40 + 32 * k,
                n * 32 <= total - 40,
                total == data@.len() * 8,
                data@.len() * 8 <= usize::MAX,
                acks@.len() == k,
                forall|t: int|
                    0 <= t < k ==> (#[trigger] acks@[t]).mmsi == bits_u(data@, 40 + 32 * t, 30)
                        && acks@[t].seq_num == bits_u(data@, 70 + 32 * t, 2),
            decreases n - k,
        {
            proof {
                assert((k + 1) * 32 <= n * 32) by (nonlinear_arith)
                    requires
                        k < n,
                ;
            }
            let (np, ack) = Acknowledgement::parse(data, p)?;
            acks.push(ack);
            p = np;
            k = k + 1;
        }
        Ok(
            SafetyRelatedAcknowledge {
                message_type: message_type as u8,
                repeat_indicator: repeat_indicator as u8,
                mmsi,
                acks,
            },
        )
    }
}

impl<'a> crate::messages::AisMessageType<'a> for SafetyRelatedAcknowledge {
    open spec fn spec_name() -> Seq<char> {
        "Safety-Related Acknowledge"@
    }

    fn name(&self) -> (r: &'static str) {
        "Safety-Related Acknowledge"
    }

    fn parse(data: &'a [u8]) -> (r: Result<Self, Error>) {
        SafetyRelatedAcknowledge::parse(data)
    }
}

} // verus!

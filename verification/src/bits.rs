//! Bit reader: big-endian, MSB-first extraction of unsigned and signed
//! integers from a byte buffer at an arbitrary bit position.
//!
//! Every read returns the new cursor together with the value, so the message
//! decoders compose by threading the cursor through successive calls.
use crate::errors::Error;
use vstd::arithmetic::power2::{lemma2_to64, pow2};
use vstd::prelude::*;

verus! {

/// Bit `k` of byte `b`, counting from the most significant bit down.
pub open spec fn nth_bit(b: u8, k: int) -> bool
    recommends
        0 <= k < 8,
{
    (b >> ((7 - k) as u8)) & 1 == 1
}

/// Bit `i` of a byte sequence, MSB-first within each byte.
pub open spec fn stream_bit(d: Seq<u8>, i: int) -> bool
    recommends
        0 <= i < d.len() * 8,
{
    nth_bit(d[i / 8], i % 8)
}

/// Unsigned big-endian value of the `n` bits starting at bit `pos`.
pub open spec fn bits_u(d: Seq<u8>, pos: int, n: nat) -> nat
    decreases n,
{
    if n == 0 {
        0
    } else {
        2 * bits_u(d, pos, (n - 1) as nat) + (if stream_bit(d, pos + n - 1) {
            1nat
        } else {
            0nat
        })
    }
}

/// Two's-complement value of the `n` bits starting at `pos`: the unsigned
/// value, lowered by `pow2(n)` when the leading bit of the field is set.
pub open spec fn bits_i(d: Seq<u8>, pos: int, n: nat) -> int {
    if n > 0 && stream_bit(d, pos) {
        bits_u(d, pos, n) - pow2(n)
    } else {
        bits_u(d, pos, n) as int
    }
}

/// An `n`-bit field is always below `pow2(n)`.
pub proof fn lemma_bits_u_bound(d: Seq<u8>, pos: int, n: nat)
    ensures
        bits_u(d, pos, n) < pow2(n),
    decreases n,
{
    if n == 0 {
        assert(pow2(0) == 1) by { lemma2_to64() };
    } else {
        vstd::arithmetic::power2::lemma_pow2_unfold(n);
        lemma_bits_u_bound(d, pos, (n - 1) as nat);
    }
}

/// The leading bit of an `n`-bit field carries weight `pow2(n - 1)`; the
/// rest of the field is its own `(n - 1)`-bit value.
pub proof fn lemma_bits_u_split_msb(d: Seq<u8>, pos: int, n: nat)
    requires
        n >= 1,
    ensures
        bits_u(d, pos, n) == (if stream_bit(d, pos) {
            pow2((n - 1) as nat)
        } else {
            0nat
        }) + bits_u(d, pos + 1, (n - 1) as nat),
    decreases n,
{
    if n == 1 {
        assert(pow2(0) == 1) by { lemma2_to64() };
        assert(bits_u(d, pos, 1) == 2 * bits_u(d, pos, 0) + (if stream_bit(d, pos) {
            1nat
        } else {
            0nat
        }));
    } else {
        lemma_bits_u_split_msb(d, pos, (n - 1) as nat);
        vstd::arithmetic::power2::lemma_pow2_unfold((n - 1) as nat);
        assert(bits_u(d, pos, n) == 2 * bits_u(d, pos, (n - 1) as nat) + (if stream_bit(
            d,
            pos + n - 1,
        ) {
            1nat
        } else {
            0nat
        }));
        assert(bits_u(d, pos + 1, (n - 1) as nat) == 2 * bits_u(d, pos + 1, (n - 2) as nat) + (
        if stream_bit(d, pos + n - 1) {
            1nat
        } else {
            0nat
        }));
    }
}

/// A signed `n`-bit field lies in the two's-complement range of width `n`.
pub proof fn lemma_bits_i_bound(d: Seq<u8>, pos: int, n: nat)
    requires
        n >= 1,
    ensures
        -pow2((n - 1) as nat) <= bits_i(d, pos, n) < pow2((n - 1) as nat),
{
    lemma_bits_u_bound(d, pos, n);
    lemma_bits_u_split_msb(d, pos, n);
    lemma_bits_u_bound(d, pos + 1, (n - 1) as nat);
    vstd::arithmetic::power2::lemma_pow2_unfold(n);
}

/// Signed extraction law: for every width `w` and every raw bit pattern,
/// the signed reading of a field equals its unsigned reading, minus
/// `pow2(w)` exactly when the most significant bit of the field is set.
pub proof fn lemma_signed_extraction(d: Seq<u8>, pos: int, w: nat)
    requires
        1 <= w <= 32,
    ensures
        bits_i(d, pos, w) == bits_u(d, pos, w) as int - (if stream_bit(d, pos) {
            pow2(w) as int
        } else {
            0
        }),
{
}

/// Bit `i` of the buffer, MSB-first.
pub fn get_bit(data: &[u8], i: usize) -> (r: bool)
    requires
        i < data@.len() * 8,
    ensures
        r == stream_bit(data@, i as int),
{
    proof {
        assert(i / 8 < data@.len()) by (nonlinear_arith)
            requires
                i < data@.len() * 8,
        ;
    }
    let byte = data[i / 8];
    let k = i % 8;
    ((byte >> ((7 - k) as u8)) & 1) == 1
}

/// Number of bits left to read at cursor `pos`.
pub fn remaining_bits(data: &[u8], pos: usize) -> (r: usize)
    requires
        data@.len() * 8 <= usize::MAX,
    ensures
        r == if pos <= data@.len() * 8 {
            data@.len() * 8 - pos
        } else {
            0
        },
{
    let total = data.len() * 8;
    if pos <= total {
        total - pos
    } else {
        0
    }
}

/// Reads the `n` bits at `pos` as an unsigned big-endian integer and
/// advances the cursor. Fails with `UnexpectedEnd` exactly when fewer than
/// `n` bits remain.
pub fn take_u(data: &[u8], pos: usize, n: usize) -> (r: Result<(usize, u32), Error>)
    requires
        n <= 32,
        data@.len() * 8 <= usize::MAX,
    ensures
        r is Ok <==> pos + n <= data@.len() * 8,
        r matches Ok(p) ==> p.0 == pos + n && p.1 == bits_u(data@, pos as int, n as nat),
        r is Err ==> r == Err::<(usize, u32), Error>(Error::UnexpectedEnd),
{
    let total = data.len() * 8;
    if pos > total || n > total - pos {
        return Err(Error::UnexpectedEnd);
    }
    proof {
        assert(pow2(0) == 1) by { lemma2_to64() };
    }
    let mut v: u32 = 0;
    let mut k: usize = 0;
    while k < n
        invariant
            k <= n,
            n <= 32,
            pos + n <= data@.len() * 8,
            data@.len() * 8 <= usize::MAX,
            v == bits_u(data@, pos as int, k as nat),
            v < pow2(k as nat),
        decreases n - k,
    {
        proof {
            lemma2_to64();
            vstd::arithmetic::power2::lemma_pow2_unfold((k + 1) as nat);
            if k + 1 < 32 {
                vstd::arithmetic::power2::lemma_pow2_strictly_increases((k + 1) as nat, 32);
            }
        }
        let b = get_bit(data, pos + k);
        v = 2 * v + (if b {
            1
        } else {
            0
        });
        k = k + 1;
    }
    Ok((pos + n, v))
}

/// Reads the `n` bits at `pos` without advancing the cursor.
pub fn peek_u(data: &[u8], pos: usize, n: usize) -> (r: Result<u32, Error>)
    requires
        n <= 32,
        data@.len() * 8 <= usize::MAX,
    ensures
        r is Ok <==> pos + n <= data@.len() * 8,
        r matches Ok(v) ==> v == bits_u(data@, pos as int, n as nat),
        r is Err ==> r == Err::<u32, Error>(Error::UnexpectedEnd),
{
    match take_u(data, pos, n) {
        Ok((_, v)) => Ok(v),
        Err(e) => Err(e),
    }
}

/// Reads the `n` bits at `pos` as a two's-complement signed integer,
/// sign-extending from bit `n - 1` of the field, and advances the cursor.
pub fn take_i(data: &[u8], pos: usize, n: usize) -> (r: Result<(usize, i32), Error>)
    requires
        1 <= n <= 32,
        data@.len() * 8 <= usize::MAX,
    ensures
        r is Ok <==> pos + n <= data@.len() * 8,
        r matches Ok(p) ==> p.0 == pos + n && p.1 == bits_i(data@, pos as int, n as nat),
        r is Err ==> r == Err::<(usize, i32), Error>(Error::UnexpectedEnd),
{
    let (np, u) = match take_u(data, pos, n) {
        Ok(p) => p,
        Err(e) => {
            return Err(e);
        },
    };
    proof {
        lemma2_to64();
        lemma_bits_u_bound(data@, pos as int, n as nat);
        lemma_bits_u_split_msb(data@, pos as int, n as nat);
        lemma_bits_u_bound(data@, pos as int + 1, (n - 1) as nat);
        if n < 32 {
            vstd::arithmetic::power2::lemma_pow2_strictly_increases((n - 1) as nat, 31);
            vstd::arithmetic::power2::lemma_pow2_strictly_increases(n as nat, 32);
        }
        vstd::arithmetic::power2::lemma_pow2_unfold(n as nat);
    }
    let half: u32 = pow2_u32((n - 1) as u32);
    if u >= half {
        let p: u64 = pow2_u64(n as u32);
        let diff: u64 = p - (u as u64);
        Ok((np, (-(diff as i64)) as i32))
    } else {
        Ok((np, u as i32))
    }
}

/// `pow2(e)` as a `u32`, for exponents below 32.
fn pow2_u32(e: u32) -> (r: u32)
    requires
        e < 32,
    ensures
        r == pow2(e as nat),
{
    proof {
        lemma2_to64();
        vstd::bits::lemma_u32_shl_is_mul(1u32, e);
        if e < 31 {
            vstd::arithmetic::power2::lemma_pow2_strictly_increases(e as nat, 31);
        }
    }
    1u32 << e
}

/// `pow2(e)` as a `u64`, for exponents below 64.
fn pow2_u64(e: u32) -> (r: u64)
    requires
        e <= 32,
    ensures
        r == pow2(e as nat),
{
    proof {
        lemma2_to64();
        vstd::bits::lemma_u64_shl_is_mul(1u64, e as u64);
        if e < 32 {
            vstd::arithmetic::power2::lemma_pow2_strictly_increases(e as nat, 32);
        }
    }
    1u64 << (e as u64)
}

} // verus!

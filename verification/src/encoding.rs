//! The varint engine: base-128 variable-length integers and the zigzag
//! sign folding used by `sint32` / `sint64` fields.

use crate::Error;
use vstd::arithmetic::mul::lemma_mul_left_inequality;
use vstd::arithmetic::power2::{
    lemma2_to64, lemma2_to64_rest, lemma_pow2_adds, lemma_pow2_strictly_increases, pow2,
};
use vstd::prelude::*;
use vstd::slice::slice_subrange;

verus! {

broadcast use vstd::arithmetic::mul::lemma_mul_is_commutative;

/// Longest legal encoding of a 64-bit varint, in bytes.
pub const VARINT_MAX_LEN: usize = 10;

/// Value carried by the low seven bits of each of the first `n` bytes of
/// `s`, least-significant group first.
pub open spec fn varint_prefix(s: Seq<u8>, n: int) -> nat
    decreases n,
{
    if n <= 0 {
        0
    } else {
        varint_prefix(s, n - 1) + pow2((7 * (n - 1)) as nat) * ((s[n - 1] & 0x7f) as nat)
    }
}

/// Index of the first byte at or after `i` whose continuation bit is
/// clear; `s.len()` if every byte from `i` on has it set.
pub open spec fn first_low_byte(s: Seq<u8>, i: int) -> int
    decreases s.len() - i,
{
    if i < 0 || i >= s.len() {
        s.len() as int
    } else if s[i] < 0x80 {
        i
    } else {
        first_low_byte(s, i + 1)
    }
}

/// Whether `s` starts with a well-formed varint: a terminating byte is
/// reached within ten bytes, and a ten-byte encoding carries no bit beyond
/// the 64th.
pub open spec fn varint_ok(s: Seq<u8>) -> bool {
    let t = first_low_byte(s, 0);
    &&& t < s.len()
    &&& t < 10
    &&& t == 9 ==> s[9] <= 1
}

/// Number of bytes the varint at the start of `s` occupies.
pub open spec fn varint_size(s: Seq<u8>) -> int
    recommends
        varint_ok(s),
{
    first_low_byte(s, 0) + 1
}

/// The value encoded by the varint at the start of `s`.
pub open spec fn varint_value(s: Seq<u8>) -> u64
    recommends
        varint_ok(s),
{
    varint_prefix(s, varint_size(s)) as u64
}

proof fn lemma_first_low_byte_at(s: Seq<u8>, i: int, k: int)
    requires
        0 <= i <= k <= s.len(),
        forall|j: int| i <= j < k ==> s[j] >= 0x80,
        k < s.len() ==> s[k] < 0x80,
    ensures
        first_low_byte(s, i) == k,
    decreases k - i,
{
    if i < k {
        lemma_first_low_byte_at(s, i + 1, k);
    }
}

proof fn lemma_first_low_byte_props(s: Seq<u8>, i: int)
    requires
        0 <= i <= s.len(),
    ensures
        i <= first_low_byte(s, i) <= s.len(),
        first_low_byte(s, i) < s.len() ==> s[first_low_byte(s, i)] < 0x80,
    decreases s.len() - i,
{
    if i < s.len() && s[i] >= 0x80 {
        lemma_first_low_byte_props(s, i + 1);
    }
}

proof fn lemma_pow2_values()
    ensures
        pow2(0) == 1,
        pow2(7) == 0x80,
        pow2(63) == 0x8000_0000_0000_0000,
        pow2(64) == 0x1_0000_0000_0000_0000,
        forall|e: nat| e <= 63 ==> #[trigger] pow2(e) <= 0x8000_0000_0000_0000,
{
    lemma2_to64();
    lemma2_to64_rest();
    assert forall|e: nat| e <= 63 implies #[trigger] pow2(e) <= 0x8000_0000_0000_0000 by {
        if e < 63 {
            lemma_pow2_strictly_increases(e, 63);
        }
    }
}

proof fn lemma_varint_prefix_bound(s: Seq<u8>, n: int)
    requires
        0 <= n,
    ensures
        varint_prefix(s, n) < pow2((7 * n) as nat),
    decreases n,
{
    lemma_pow2_values();
    if n > 0 {
        lemma_varint_prefix_bound(s, n - 1);
        let m = pow2((7 * (n - 1)) as nat) as int;
        let b = s[n - 1];
        let x = (b & 0x7f) as int;
        assert(b & 0x7f < 0x80) by (bit_vector);
        lemma_mul_left_inequality(m, x, 127);
        lemma_pow2_adds((7 * (n - 1)) as nat, 7);
    }
}

/// Decodes a varint from the front of a slice, returning the remainder of
/// the slice and the value.
///
/// Succeeds exactly on the inputs that carry a well-formed varint; the
/// single-byte fast path is behaviourally identical to the general loop.
pub fn read_varint(buf: &[u8]) -> (r: Result<(&[u8], u64), Error>)
    ensures
        r is Ok <==> varint_ok(buf@),
        r matches Ok((rest, value)) ==> {
            &&& rest@ == buf@.skip(varint_size(buf@))
            &&& value == varint_value(buf@)
        },
{
    if buf.len() > 0 {
        let byte = buf[0];
        if byte <= 0x7f {
            proof {
                lemma_first_low_byte_at(buf@, 0, 0);
                lemma_pow2_values();
                assert(byte & 0x7f == byte) by (bit_vector)
                    requires
                        byte <= 0x7f,
                ;
                assert(buf@.skip(1) =~= buf@.subrange(1, buf@.len() as int));
                assert(varint_prefix(buf@, 0) == 0);
                vstd::arithmetic::mul::lemma_mul_basics((buf@[0] & 0x7f) as int);
                assert(pow2(0) * ((buf@[0] & 0x7f) as nat) == 1 * ((buf@[0] & 0x7f) as nat));
                assert(varint_prefix(buf@, 1) == (buf@[0] & 0x7f) as nat);
            }
            return Ok((slice_subrange(buf, 1, buf.len()), byte as u64));
        }
    }
    read_varint_loop(buf)
}

fn read_varint_loop(buf: &[u8]) -> (r: Result<(&[u8], u64), Error>)
    ensures
        r is Ok <==> varint_ok(buf@),
        r matches Ok((rest, value)) ==> {
            &&& rest@ == buf@.skip(varint_size(buf@))
            &&& value == varint_value(buf@)
        },
{
    let ghost s = buf@;
    let mut value: u64 = 0;
    let mut scale: u64 = 1;
    let mut index: usize = 0;
    proof {
        lemma_pow2_values();
    }
    while index < VARINT_MAX_LEN
        invariant
            index < VARINT_MAX_LEN,
            index <= s.len(),
            buf@ == s,
            forall|j: int| 0 <= j < index ==> s[j] >= 0x80,
            value == varint_prefix(s, index as int),
            scale == pow2((7 * index) as nat),
        decreases VARINT_MAX_LEN - index,
    {
        proof {
            lemma_pow2_values();
            lemma_varint_prefix_bound(s, index as int);
        }
        if index >= buf.len() {
            // The input ran out before a terminating byte appeared.
            proof {
                lemma_first_low_byte_at(s, 0, index as int);
            }
            return Err(Error);
        }
        let byte = buf[index];
        let group = byte & 0x7f;
        proof {
            assert((group < 0x80) && (byte <= 0x7f ==> group == byte)) by (bit_vector)
                requires
                    group == byte & 0x7f,
            ;
        }
        if byte <= 0x7f {
            proof {
                lemma_first_low_byte_at(s, 0, index as int);
            }
            if index + 1 == VARINT_MAX_LEN && byte > 0x01 {
                // A tenth byte may only contribute the 64th bit.
                return Err(Error);
            }
            proof {
                if index == 9 {
                    lemma_mul_left_inequality(scale as int, group as int, 1);
                    assert(group as int * scale as int <= scale);
                } else {
                    lemma_mul_left_inequality(scale as int, group as int, 127);
                    lemma_pow2_adds((7 * index) as nat, 7);
                    assert(scale * 128 == pow2(((7 * index) as nat + 7) as nat));
                    assert(value + group * scale < scale * 128);
                }
                assert(s.skip(index + 1) =~= s.subrange(index + 1, s.len() as int));
            }
            return Ok((slice_subrange(buf, index + 1, buf.len()), value + group as u64 * scale));
        }
        if index + 1 == VARINT_MAX_LEN {
            // Ten continuation bits in a row: an eleventh byte would follow.
            proof {
                lemma_first_low_byte_props(s, 0);
            }
            return Err(Error);
        }
        proof {
            lemma_mul_left_inequality(scale as int, group as int, 127);
            lemma_pow2_adds((7 * index) as nat, 7);
            assert(scale * 128 == pow2(((7 * index) as nat + 7) as nat));
            assert(pow2(((7 * index) as nat + 7) as nat) <= 0x8000_0000_0000_0000);
            assert(value + group * scale < 0x1_0000_0000_0000_0000);
        }
        value = value + group as u64 * scale;
        scale = scale * 128;
        index = index + 1;
    }
    proof {
        assert(false);
    }
    Err(Error)
}

/// Two's-complement value that zigzag-encodes to the 32-bit value `n`:
/// even values unfold to non-negative integers, odd ones to negative.
pub open spec fn zigzag_decode32(n: u32) -> int {
    if n % 2 == 0 {
        (n / 2) as int
    } else {
        -((n / 2) as int) - 1
    }
}

/// Two's-complement value that zigzag-encodes to the 64-bit value `n`.
pub open spec fn zigzag_decode64(n: u64) -> int {
    if n % 2 == 0 {
        (n / 2) as int
    } else {
        -((n / 2) as int) - 1
    }
}

/// Zigzag image of a two's-complement value: small magnitudes of either
/// sign map to small unsigned values.
pub open spec fn zigzag_encode(v: int) -> int {
    if v >= 0 {
        2 * v
    } else {
        -2 * v - 1
    }
}

/// Folds a zigzag-encoded 32-bit unsigned integer back to its signed value.
pub fn decode_32(n: u32) -> (r: i32)
    ensures
        r as int == zigzag_decode32(n),
{
    let half = n / 2;
    if n % 2 == 0 {
        half as i32
    } else {
        -(half as i32) - 1
    }
}

/// Folds a zigzag-encoded 64-bit unsigned integer back to its signed value.
pub fn decode_64(n: u64) -> (r: i64)
    ensures
        r as int == zigzag_decode64(n),
{
    let half = n / 2;
    if n % 2 == 0 {
        half as i64
    } else {
        -(half as i64) - 1
    }
}

/// Zigzag decoding of a 32-bit value lands in the 32-bit two's-complement
/// range and inverts zigzag encoding: the decoded value is the one whose
/// zigzag image is the input.
pub proof fn lemma_zigzag32_roundtrip(n: u32)
    ensures
        -0x8000_0000 <= zigzag_decode32(n) <= 0x7fff_ffff,
        zigzag_encode(zigzag_decode32(n)) == n,
{
    vstd::arithmetic::div_mod::lemma_fundamental_div_mod(n as int, 2);
}

/// Zigzag decoding of a 64-bit value lands in the 64-bit two's-complement
/// range and inverts zigzag encoding.
pub proof fn lemma_zigzag64_roundtrip(n: u64)
    ensures
        -0x8000_0000_0000_0000 <= zigzag_decode64(n) <= 0x7fff_ffff_ffff_ffff,
        zigzag_encode(zigzag_decode64(n)) == n,
{
    vstd::arithmetic::div_mod::lemma_fundamental_div_mod(n as int, 2);
}

/// The varint at the start of a well-formed buffer occupies between one
/// and ten bytes, and no more than the buffer holds.
pub proof fn lemma_varint_size_bounds(s: Seq<u8>)
    requires
        varint_ok(s),
    ensures
        1 <= varint_size(s) <= 10,
        varint_size(s) <= s.len(),
{
    lemma_first_low_byte_props(s, 0);
}

/// A ten-byte varint that is well formed in length but whose tenth byte
/// carries any bit above the lowest is rejected: its value would exceed
/// 64 bits.
pub proof fn lemma_varint_overflow_rejected(s: Seq<u8>)
    requires
        s.len() >= 10,
        forall|i: int| 0 <= i < 9 ==> s[i] >= 0x80,
        s[9] < 0x80,
        s[9] > 1,
    ensures
        !varint_ok(s),
{
    lemma_first_low_byte_at(s, 0, 9);
}

} // verus!

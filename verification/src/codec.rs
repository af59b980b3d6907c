//! The identifier codec: how an object identifier is written into, and read
//! back from, one pixel of the picking texture.
//!
//! A pixel has four half-precision channels. The identifier is first moved up
//! by one, so that zero can mean "no object", and the result (the virtual
//! index) is split into three digits of eleven bits. Each digit is below 2048
//! and therefore a whole number that half precision represents exactly. The
//! fourth channel carries no identifier bits.

use vstd::arithmetic::div_mod::{lemma_div_by_multiple, lemma_fundamental_div_mod_converse};
use vstd::arithmetic::mul::lemma_mul_inequality;
use vstd::arithmetic::power2::{
    lemma2_to64, lemma_pow2_pos, lemma_pow2_strictly_increases, lemma_pow2_unfold, pow2,
};
use vstd::bits::{lemma_u32_shl_is_mul, lemma_u32_shr_is_div};
use vstd::prelude::*;

verus! {

/// One more than the largest value of a channel.
pub const CHANNEL_LIMIT: u64 = 2048;

/// The largest virtual index: that of the identifier `u32::MAX`.
pub const MAX_VIRTUAL_INDEX: u64 = 4294967296;

/// The half-precision number one, written to the channel that holds no digit.
pub const HALF_ONE: u16 = 0x3C00;

/// Bytes of one pixel of the picking texture.
pub const PIXEL_BYTES: usize = 8;

/// Bytes of one value of the depth buffer.
pub const DEPTH_BYTES: usize = 4;

/// Identifies a pickable object.
#[derive(Clone, Copy, Debug, PartialEq, Eq, Structural)]
pub struct ObjectId(pub u32);

/// The form in which an identifier is stored in a pixel: the identifier plus one.
pub open spec fn virtual_index(id: ObjectId) -> nat {
    (id.0 + 1) as nat
}

/// The object a virtual index stands for: none for zero and for an index past
/// that of the largest identifier.
pub open spec fn object_of(index: nat) -> Option<ObjectId> {
    if 1 <= index <= MAX_VIRTUAL_INDEX {
        Some(ObjectId((index - 1) as u32))
    } else {
        None
    }
}

/// Digit `k` of `index`, counted from the lowest, in base 2048.
pub open spec fn channel(index: nat, k: nat) -> nat {
    if k == 0 {
        index % 2048
    } else if k == 1 {
        (index / 2048) % 2048
    } else {
        index / 4194304
    }
}

/// The number whose three digits in base 2048 are `c0`, `c1` and `c2`.
pub open spec fn join_channels(c0: nat, c1: nat, c2: nat) -> nat {
    c0 + 2048 * c1 + 4194304 * c2
}

/// The object three channel values stand for: none unless each is a digit
/// and together they form the virtual index of an identifier.
pub open spec fn object_of_channels(c0: nat, c1: nat, c2: nat) -> Option<ObjectId> {
    if c0 < 2048 && c1 < 2048 && c2 < 2048 {
        object_of(join_channels(c0, c1, c2))
    } else {
        None
    }
}

/// The exponent field of a half-precision bit pattern.
pub open spec fn half_exponent(bits: u16) -> nat {
    (bits as nat / 1024) % 32
}

/// The fraction field of a half-precision bit pattern.
pub open spec fn half_fraction(bits: u16) -> nat {
    bits as nat % 1024
}

/// The half-precision number `bits` as an integer: its value with the
/// fractional part dropped, zero for a negative number and for a NaN, and
/// 65535 for positive infinity.
pub open spec fn half_to_integer(bits: u16) -> nat {
    let e = half_exponent(bits);
    let f = half_fraction(bits);
    if bits >= 0x8000 || e < 15 {
        0
    } else if e == 31 {
        if f == 0 {
            65535
        } else {
            0
        }
    } else if e <= 25 {
        (1024 + f) / pow2((25 - e) as nat)
    } else {
        (1024 + f) * pow2((e - 25) as nat)
    }
}

/// Whether the half-precision number `bits` is positive zero or a positive
/// normal number whose value is exactly the integer `n`.
pub open spec fn exact_half(bits: u16, n: nat) -> bool {
    if n == 0 {
        bits == 0
    } else {
        &&& bits < 0x8000
        &&& 15 <= half_exponent(bits) <= 25
        &&& 1024 + half_fraction(bits) == n * pow2((25 - half_exponent(bits)) as nat)
    }
}

/// The half-precision bit pattern of channel `k` of a pixel.
pub open spec fn channel_bits(pixel: Seq<u8>, k: int) -> u16 {
    (pixel[2 * k] as nat + 256 * (pixel[2 * k + 1] as nat)) as u16
}

/// Whether `pixel` is the encoding of `id`: each digit of the virtual index
/// stands exactly in its channel, and the fourth channel is one.
pub open spec fn encodes(pixel: Seq<u8>, id: ObjectId) -> bool {
    &&& pixel.len() == 8
    &&& exact_half(channel_bits(pixel, 0), channel(virtual_index(id), 0))
    &&& exact_half(channel_bits(pixel, 1), channel(virtual_index(id), 1))
    &&& exact_half(channel_bits(pixel, 2), channel(virtual_index(id), 2))
    &&& channel_bits(pixel, 3) == HALF_ONE
}

/// The object a pixel stands for.
pub open spec fn decode(pixel: Seq<u8>) -> Option<ObjectId> {
    object_of_channels(
        half_to_integer(channel_bits(pixel, 0)),
        half_to_integer(channel_bits(pixel, 1)),
        half_to_integer(channel_bits(pixel, 2)),
    )
}

/// The 32-bit pattern that four bytes hold in little-endian order.
pub open spec fn depth_bits(bytes: Seq<u8>) -> nat {
    bytes[0] as nat + 256 * (bytes[1] as nat) + 65536 * (bytes[2] as nat) + 16777216 * (
    bytes[3] as nat)
}

/// A half-precision number that is exactly `n` reads back as `n`.
pub proof fn lemma_exact_half_reads_back(bits: u16, n: nat)
    requires
        exact_half(bits, n),
    ensures
        half_to_integer(bits) == n,
{
    if n != 0 {
        let k = (25 - half_exponent(bits)) as nat;
        lemma_pow2_pos(k);
        lemma_div_by_multiple(n as int, pow2(k) as int);
    }
}

/// At most one half-precision number is exactly `n`.
pub proof fn lemma_exact_half_unique(a: u16, b: u16, n: nat)
    requires
        exact_half(a, n),
        exact_half(b, n),
    ensures
        a == b,
{
    if n != 0 {
        let ka = (25 - half_exponent(a)) as nat;
        let kb = (25 - half_exponent(b)) as nat;
        if ka < kb {
            lemma_scaled_apart(n, ka, kb);
        } else if kb < ka {
            lemma_scaled_apart(n, kb, ka);
        }
        assert(half_exponent(a) == half_exponent(b));
        assert(half_fraction(a) == half_fraction(b));
        assert(a as nat / 1024 < 32);
        assert(b as nat / 1024 < 32);
    }
}

/// Scaling a positive number by a higher power of two at least doubles it.
proof fn lemma_scaled_apart(n: nat, low: nat, high: nat)
    requires
        n > 0,
        low < high,
    ensures
        n * pow2(high) >= 2 * (n * pow2(low)),
{
    lemma_pow2_unfold(low + 1);
    if low + 1 < high {
        lemma_pow2_strictly_increases(low + 1, high);
    }
    lemma_mul_inequality(pow2(low + 1) as int, pow2(high) as int, n as int);
    assert(n * pow2(low + 1) == 2 * (n * pow2(low))) by (nonlinear_arith)
        requires
            pow2(low + 1) == 2 * pow2(low),
    ;
    assert(pow2(high) * n == n * pow2(high)) by (nonlinear_arith);
    assert(pow2(low + 1) * n == n * pow2(low + 1)) by (nonlinear_arith);
}

/// The digits of a virtual index join back to it, and each is below 2048.
pub proof fn lemma_channels_join(index: nat)
    requires
        index <= MAX_VIRTUAL_INDEX,
    ensures
        channel(index, 0) < 2048,
        channel(index, 1) < 2048,
        channel(index, 2) < 2048,
        join_channels(channel(index, 0), channel(index, 1), channel(index, 2)) == index,
{
}

/// Three digits are the digits of the number they join to.
pub proof fn lemma_join_channels(c0: nat, c1: nat, c2: nat)
    requires
        c0 < 2048,
        c1 < 2048,
    ensures
        channel(join_channels(c0, c1, c2), 0) == c0,
        channel(join_channels(c0, c1, c2), 1) == c1,
        channel(join_channels(c0, c1, c2), 2) == c2,
{
}

/// Decoding what was encoded gives the identifier back.
pub proof fn lemma_round_trip(pixel: Seq<u8>, id: ObjectId)
    requires
        encodes(pixel, id),
    ensures
        decode(pixel) == Some(id),
{
    let index = virtual_index(id);
    lemma_channels_join(index);
    lemma_exact_half_reads_back(channel_bits(pixel, 0), channel(index, 0));
    lemma_exact_half_reads_back(channel_bits(pixel, 1), channel(index, 1));
    lemma_exact_half_reads_back(channel_bits(pixel, 2), channel(index, 2));
}

/// A pixel whose three identifier channels are zero stands for no object,
/// whatever the fourth channel holds.
pub proof fn lemma_zero_pixel(pixel: Seq<u8>)
    requires
        pixel.len() == 8,
        forall|i: int| 0 <= i < 6 ==> pixel[i] == 0,
    ensures
        decode(pixel) == None::<ObjectId>,
{
    assert(channel_bits(pixel, 0) == 0);
    assert(channel_bits(pixel, 1) == 0);
    assert(channel_bits(pixel, 2) == 0);
}

/// Two identifiers with the same encoding are the same identifier.
pub proof fn lemma_encoding_injective(pixel: Seq<u8>, a: ObjectId, b: ObjectId)
    requires
        encodes(pixel, a),
        encodes(pixel, b),
    ensures
        a == b,
{
    lemma_round_trip(pixel, a);
    lemma_round_trip(pixel, b);
}

impl ObjectId {
    /// The virtual index of this identifier.
    pub fn virtual_index(self) -> (index: u64)
        ensures
            index == virtual_index(self),
            1 <= index <= MAX_VIRTUAL_INDEX,
    {
        self.0 as u64 + 1
    }

    /// The identifier a virtual index stands for, if any.
    pub fn from_virtual_index(index: u64) -> (id: Option<ObjectId>)
        ensures
            id == object_of(index as nat),
    {
        if index == 0 || index > MAX_VIRTUAL_INDEX {
            None
        } else {
            Some(ObjectId((index - 1) as u32))
        }
    }

    /// The identifier that three channel values stand for, if any.
    pub fn from_channels(c0: u16, c1: u16, c2: u16) -> (id: Option<ObjectId>)
        ensures
            id == object_of_channels(c0 as nat, c1 as nat, c2 as nat),
    {
        if c0 as u64 >= CHANNEL_LIMIT || c1 as u64 >= CHANNEL_LIMIT || c2 as u64 >= CHANNEL_LIMIT {
            return None;
        }
        ObjectId::from_virtual_index(c0 as u64 + 2048 * (c1 as u64) + 4194304 * (c2 as u64))
    }

    /// The three channel values of this identifier, lowest digit first.
    pub fn channels(self) -> (digits: (u16, u16, u16))
        ensures
            digits.0 == channel(virtual_index(self), 0),
            digits.1 == channel(virtual_index(self), 1),
            digits.2 == channel(virtual_index(self), 2),
            digits.0 < 2048 && digits.1 < 2048 && digits.2 < 2048,
    {
        let index = self.virtual_index();
        ((index % 2048) as u16, ((index / 2048) % 2048) as u16, (index / 4194304) as u16)
    }
}

/// The half-precision bit pattern of the whole number `n`.
pub fn integer_to_half(n: u16) -> (bits: u16)
    requires
        n < 2048,
    ensures
        exact_half(bits, n as nat),
{
    if n == 0 {
        return 0;
    }
    let mut scaled: u16 = n;
    let mut exponent: u16 = 25;
    proof {
        lemma2_to64();
        assert(n * pow2(0) == n) by (nonlinear_arith)
            requires
                pow2(0) == 1,
        ;
    }
    while scaled < 1024
        invariant
            0 < n < 2048,
            15 <= exponent <= 25,
            scaled < 2048,
            scaled == n * pow2((25 - exponent) as nat),
        decreases exponent,
    {
        proof {
            let k = (25 - exponent) as nat;
            lemma2_to64();
            lemma_pow2_pos(k);
            lemma_mul_inequality(1, n as int, pow2(k) as int);
            assert(pow2(k) <= scaled) by (nonlinear_arith)
                requires
                    scaled == n * pow2(k),
                    n >= 1,
                    pow2(k) > 0,
            ;
            if k >= 10 {
                if k > 10 {
                    lemma_pow2_strictly_increases(10, k);
                }
                assert(false);
            }
            lemma_pow2_unfold(k + 1);
            assert(2 * (n * pow2(k)) == n * pow2(k + 1)) by (nonlinear_arith)
                requires
                    pow2(k + 1) == 2 * pow2(k),
            ;
        }
        scaled = scaled * 2;
        exponent = exponent - 1;
    }
    let bits: u16 = exponent * 1024 + (scaled - 1024);
    proof {
        let fraction = (scaled - 1024) as nat;
        lemma_fundamental_div_mod_converse(bits as int, 1024, exponent as int, fraction as int);
    }
    bits
}

/// The half-precision number `bits` as an integer.
pub fn half_bits_to_integer(bits: u16) -> (value: u16)
    ensures
        value == half_to_integer(bits),
{
    let exponent: u32 = ((bits / 1024) % 32) as u32;
    let fraction: u32 = (bits % 1024) as u32;
    if bits >= 0x8000 || exponent < 15 {
        return 0;
    }
    if exponent == 31 {
        return if fraction == 0 {
            65535
        } else {
            0
        };
    }
    let significand: u32 = 1024 + fraction;
    proof {
        lemma2_to64();
    }
    if exponent <= 25 {
        let shift: u32 = 25 - exponent;
        proof {
            lemma_u32_shr_is_div(significand, shift);
            lemma_pow2_pos(shift as nat);
        }
        (significand >> shift) as u16
    } else {
        let shift: u32 = exponent - 25;
        proof {
            assert(pow2(shift as nat) <= 32) by {
                if shift < 5 {
                    lemma_pow2_strictly_increases(shift as nat, 5);
                }
            }
            assert(significand * pow2(shift as nat) <= 65504) by (nonlinear_arith)
                requires
                    significand <= 2047,
                    0 < pow2(shift as nat) <= 32,
            ;
            lemma_u32_shl_is_mul(significand, shift);
        }
        (significand << shift) as u16
    }
}

/// Low and high byte of a 16-bit pattern.
fn split_bits(bits: u16) -> (bytes: (u8, u8))
    ensures
        bytes.0 as nat + 256 * (bytes.1 as nat) == bits,
{
    ((bits % 256) as u8, (bits / 256) as u8)
}

/// The pixel that stands for `id`.
pub fn encode_pixel(id: ObjectId) -> (pixel: [u8; 8])
    ensures
        encodes(pixel@, id),
        decode(pixel@) == Some(id),
{
    let (c0, c1, c2) = id.channels();
    let (a0, a1) = split_bits(integer_to_half(c0));
    let (b0, b1) = split_bits(integer_to_half(c1));
    let (d0, d1) = split_bits(integer_to_half(c2));
    let (e0, e1) = split_bits(HALF_ONE);
    let pixel = [a0, a1, b0, b1, d0, d1, e0, e1];
    assert(channel_bits(pixel@, 0) == a0 as nat + 256 * (a1 as nat));
    assert(channel_bits(pixel@, 1) == b0 as nat + 256 * (b1 as nat));
    assert(channel_bits(pixel@, 2) == d0 as nat + 256 * (d1 as nat));
    assert(channel_bits(pixel@, 3) == e0 as nat + 256 * (e1 as nat));
    proof {
        lemma_round_trip(pixel@, id);
    }
    pixel
}

/// The object that `pixel` stands for, if any.
pub fn decode_pixel(pixel: &[u8; 8]) -> (id: Option<ObjectId>)
    ensures
        id == decode(pixel@),
{
    let c0 = half_bits_to_integer(pixel[0] as u16 + 256 * (pixel[1] as u16));
    let c1 = half_bits_to_integer(pixel[2] as u16 + 256 * (pixel[3] as u16));
    let c2 = half_bits_to_integer(pixel[4] as u16 + 256 * (pixel[5] as u16));
    ObjectId::from_channels(c0, c1, c2)
}

/// The 32-bit pattern of a depth value, from its four bytes in little-endian
/// order.
pub fn decode_depth(bytes: &[u8; 4]) -> (bits: u32)
    ensures
        bits == depth_bits(bytes@),
{
    bytes[0] as u32 + 256 * (bytes[1] as u32) + 65536 * (bytes[2] as u32) + 16777216 * (
    bytes[3] as u32)
}

} // verus!

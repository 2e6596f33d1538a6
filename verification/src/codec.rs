//! Little-endian integer primitives shared by every wire layout.
//!
//! The mathematical meaning of a multi-byte field is given by the `le_*`
//! functions over a byte sequence; the executable readers and writers are
//! proved against them.

use vstd::prelude::*;

verus! {

/// The unsigned 16-bit value stored little-endian at `s[i..i + 2]`.
pub open spec fn le_u16(s: Seq<u8>, i: int) -> u16 {
    (s[i] as int + 256 * (s[i + 1] as int)) as u16
}

/// The unsigned 32-bit value stored little-endian at `s[i..i + 4]`.
pub open spec fn le_u32(s: Seq<u8>, i: int) -> u32 {
    (s[i] as int + 256 * (s[i + 1] as int) + 65536 * (s[i + 2] as int) + 16777216 * (s[i
        + 3] as int)) as u32
}

/// Two's-complement reading of a 16-bit pattern.
pub open spec fn signed16(u: u16) -> i16 {
    if u >= 32768 {
        (u as int - 65536) as i16
    } else {
        u as i16
    }
}

/// Two's-complement reading of a 32-bit pattern.
pub open spec fn signed32(u: u32) -> i32 {
    if u >= 2147483648 {
        (u as int - 4294967296) as i32
    } else {
        u as i32
    }
}

/// Two's-complement reading of an 8-bit pattern.
pub open spec fn signed8(u: u8) -> i8 {
    if u >= 128 {
        (u as int - 256) as i8
    } else {
        u as i8
    }
}

/// The 8-bit pattern of a signed byte.
pub open spec fn unsigned8(v: i8) -> u8 {
    if v < 0 {
        (v as int + 256) as u8
    } else {
        v as u8
    }
}

/// The 16-bit pattern of a signed value.
pub open spec fn unsigned16(v: i16) -> u16 {
    if v < 0 {
        (v as int + 65536) as u16
    } else {
        v as u16
    }
}

/// The 32-bit pattern of a signed value.
pub open spec fn unsigned32(v: i32) -> u32 {
    if v < 0 {
        (v as int + 4294967296) as u32
    } else {
        v as u32
    }
}

/// The signed 16-bit value stored little-endian at `s[i..i + 2]`.
pub open spec fn le_i16(s: Seq<u8>, i: int) -> i16 {
    signed16(le_u16(s, i))
}

/// The signed 32-bit value stored little-endian at `s[i..i + 4]`.
pub open spec fn le_i32(s: Seq<u8>, i: int) -> i32 {
    signed32(le_u32(s, i))
}

/// Little-endian encoding of an unsigned 16-bit value.
pub open spec fn u16_bytes(v: u16) -> Seq<u8> {
    seq![(v % 256) as u8, (v / 256) as u8]
}

/// Little-endian encoding of an unsigned 32-bit value.
pub open spec fn u32_bytes(v: u32) -> Seq<u8> {
    seq![
        (v % 256) as u8,
        ((v / 256) % 256) as u8,
        ((v / 65536) % 256) as u8,
        (v / 16777216) as u8,
    ]
}

/// Little-endian encoding of a signed 16-bit value.
pub open spec fn i16_bytes(v: i16) -> Seq<u8> {
    u16_bytes(unsigned16(v))
}

/// Little-endian encoding of a signed 32-bit value.
pub open spec fn i32_bytes(v: i32) -> Seq<u8> {
    u32_bytes(unsigned32(v))
}

/// Decoding an encoded 16-bit value gives the value back.
pub proof fn lemma_u16_roundtrip(v: u16)
    ensures
        u16_bytes(v).len() == 2,
        le_u16(u16_bytes(v), 0) == v,
{
}

/// Decoding an encoded 32-bit value gives the value back.
pub proof fn lemma_u32_roundtrip(v: u32)
    ensures
        u32_bytes(v).len() == 4,
        le_u32(u32_bytes(v), 0) == v,
{
    let x = v as int;
}

/// Encoding a decoded 16-bit field reproduces its two bytes.
pub proof fn lemma_u16_bytes_roundtrip(s: Seq<u8>, i: int)
    requires
        0 <= i,
        i + 2 <= s.len(),
    ensures
        u16_bytes(le_u16(s, i)) =~= s.subrange(i, i + 2),
{
}

/// Encoding a decoded 32-bit field reproduces its four bytes.
pub proof fn lemma_u32_bytes_roundtrip(s: Seq<u8>, i: int)
    requires
        0 <= i,
        i + 4 <= s.len(),
    ensures
        u32_bytes(le_u32(s, i)) =~= s.subrange(i, i + 4),
{
    let a = s[i] as int;
    let b = s[i + 1] as int;
    let c = s[i + 2] as int;
    let d = s[i + 3] as int;
    let v = a + 256 * b + 65536 * c + 16777216 * d;
    let e = u32_bytes(le_u32(s, i));
    assert(e[0] == s[i]);
    assert(e[2] == s[i + 2]);
    assert(e[3] == s[i + 3]);
}

/// The signed and unsigned readings of a pattern are inverse to each other.
pub proof fn lemma_signed_roundtrip(a: i8, b: i16, c: i32, x: u8, y: u16, z: u32)
    ensures
        signed8(unsigned8(a)) == a,
        signed16(unsigned16(b)) == b,
        signed32(unsigned32(c)) == c,
        unsigned8(signed8(x)) == x,
        unsigned16(signed16(y)) == y,
        unsigned32(signed32(z)) == z,
{
}

/// Quotient of division that rounds toward zero, for a positive divisor.
pub open spec fn trunc_div(a: int, m: int) -> int {
    if a >= 0 {
        a / m
    } else {
        -((-a) / m)
    }
}

/// Remainder of division that rounds toward zero, for a positive divisor.
pub open spec fn trunc_rem(a: int, m: int) -> int {
    if a >= 0 {
        a % m
    } else {
        -((-a) % m)
    }
}

/// The signed 32-bit number that `x` wraps to.
pub open spec fn wrap_i32(x: int) -> i32 {
    let m = x % 0x1_0000_0000;
    if m >= 0x8000_0000 {
        (m - 0x1_0000_0000) as i32
    } else {
        m as i32
    }
}

/// Wraps a 64-bit sum to 32 signed bits.
pub fn wrap_to_i32(t: i64) -> (r: i32)
    requires
        -0x2_0000_0000 < t < 0x2_0000_0000,
    ensures
        r == wrap_i32(t as int),
{
    let m: u64 = ((t + 0x2_0000_0000) as u64) % 0x1_0000_0000;
    proof {
        vstd::arithmetic::div_mod::lemma_mod_multiples_vanish(2, t as int, 0x1_0000_0000);
    }
    if m >= 0x8000_0000 {
        ((m as i64) - 0x1_0000_0000) as i32
    } else {
        m as i32
    }
}

/// Reinterprets a byte as a signed byte.
pub fn u8_to_i8(u: u8) -> (r: i8)
    ensures
        r == signed8(u),
{
    if u >= 128 {
        ((u as i16) - 256) as i8
    } else {
        u as i8
    }
}

/// Reinterprets a signed byte as a byte.
pub fn i8_to_u8(v: i8) -> (r: u8)
    ensures
        r == unsigned8(v),
{
    if v < 0 {
        ((v as i16) + 256) as u8
    } else {
        v as u8
    }
}

/// Reinterprets a 16-bit pattern as a signed value.
pub fn u16_to_i16(u: u16) -> (r: i16)
    ensures
        r == signed16(u),
{
    if u >= 32768 {
        ((u as i32) - 65536) as i16
    } else {
        u as i16
    }
}

/// Reinterprets a signed 16-bit value as its pattern.
pub fn i16_to_u16(v: i16) -> (r: u16)
    ensures
        r == unsigned16(v),
{
    if v < 0 {
        ((v as i32) + 65536) as u16
    } else {
        v as u16
    }
}

/// Reinterprets a 32-bit pattern as a signed value.
pub fn u32_to_i32(u: u32) -> (r: i32)
    ensures
        r == signed32(u),
{
    if u >= 2147483648 {
        ((u as i64) - 4294967296) as i32
    } else {
        u as i32
    }
}

/// Reinterprets a signed 32-bit value as its pattern.
pub fn i32_to_u32(v: i32) -> (r: u32)
    ensures
        r == unsigned32(v),
{
    if v < 0 {
        ((v as i64) + 4294967296) as u32
    } else {
        v as u32
    }
}

/// Reads the unsigned 16-bit field at `off`.
pub fn read_u16(data: &[u8], off: usize) -> (r: u16)
    requires
        off + 2 <= data@.len(),
    ensures
        r == le_u16(data@, off as int),
{
    (data[off] as u16) + 256 * (data[off + 1] as u16)
}

/// Reads the unsigned 32-bit field at `off`.
pub fn read_u32(data: &[u8], off: usize) -> (r: u32)
    requires
        off + 4 <= data@.len(),
    ensures
        r == le_u32(data@, off as int),
{
    (data[off] as u32) + 256 * (data[off + 1] as u32) + 65536 * (data[off + 2] as u32) + 16777216
        * (data[off + 3] as u32)
}

/// Reads the signed 16-bit field at `off`.
pub fn read_i16(data: &[u8], off: usize) -> (r: i16)
    requires
        off + 2 <= data@.len(),
    ensures
        r == le_i16(data@, off as int),
{
    u16_to_i16(read_u16(data, off))
}

/// Reads the signed 32-bit field at `off`.
pub fn read_i32(data: &[u8], off: usize) -> (r: i32)
    requires
        off + 4 <= data@.len(),
    ensures
        r == le_i32(data@, off as int),
{
    u32_to_i32(read_u32(data, off))
}

/// Little-endian bytes of an unsigned 16-bit value.
pub fn u16_to_le(v: u16) -> (r: [u8; 2])
    ensures
        r@ == u16_bytes(v),
{
    let r: [u8; 2] = [(v % 256) as u8, (v / 256) as u8];
    r
}

/// Little-endian bytes of an unsigned 32-bit value.
pub fn u32_to_le(v: u32) -> (r: [u8; 4])
    ensures
        r@ == u32_bytes(v),
{
    let r: [u8; 4] = [
        (v % 256) as u8,
        ((v / 256) % 256) as u8,
        ((v / 65536) % 256) as u8,
        (v / 16777216) as u8,
    ];
    assert(r@ =~= u32_bytes(v));
    r
}

} // verus!

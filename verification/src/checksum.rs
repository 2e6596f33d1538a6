//! Checksums that the server asks of a client.

use vstd::prelude::*;

verus! {

/// The XOR of all bytes of a sequence.
pub open spec fn xor_fold(bytes: Seq<u8>) -> u8
    decreases bytes.len(),
{
    if bytes.len() == 0 {
        0
    } else {
        xor_fold(bytes.drop_last()) ^ bytes.last()
    }
}

/// The checksum byte of a position packet: the XOR of all its bytes,
/// taken while the checksum's own place holds zero.
pub fn weapon_checksum(packet: &[u8]) -> (r: u8)
    ensures
        r == xor_fold(packet@),
{
    let n: usize = packet.len();
    let mut sum: u8 = 0;
    let mut i: usize = 0;
    while i < n
        invariant
            i <= n,
            n == packet@.len(),
            sum == xor_fold(packet@.subrange(0, i as int)),
        decreases n - i,
    {
        assert(packet@.subrange(0, i + 1).drop_last() =~= packet@.subrange(0, i as int));
        sum = sum ^ packet[i];
        i += 1;
    }
    assert(packet@.subrange(0, n as int) =~= packet@);
    sum
}

/// One step of the CRC-32 shift register: shift right, and fold the
/// polynomial `0xEDB88320` in when a one bit falls out.
pub open spec fn crc_shift(c: u32) -> u32 {
    if c & 1 != 0 {
        (c >> 1) ^ 0xEDB8_8320
    } else {
        c >> 1
    }
}

/// The shift register after one more byte: the byte is folded into the
/// low bits, then the register steps eight times.
pub open spec fn crc_byte(c: u32, b: u8) -> u32 {
    crc_shift(crc_shift(crc_shift(crc_shift(crc_shift(crc_shift(crc_shift(crc_shift(c ^ (b as u32)))))))))
}

/// The shift register after all bytes, starting from all ones.
pub open spec fn crc_register(bytes: Seq<u8>) -> u32
    decreases bytes.len(),
{
    if bytes.len() == 0 {
        0xFFFF_FFFF
    } else {
        crc_byte(crc_register(bytes.drop_last()), bytes.last())
    }
}

/// The CRC-32 of a byte sequence: the final register, inverted.
pub open spec fn crc32_of(bytes: Seq<u8>) -> u32 {
    crc_register(bytes) ^ 0xFFFF_FFFF
}

fn shift(c: u32) -> (r: u32)
    ensures
        r == crc_shift(c),
{
    if c & 1 != 0 {
        (c >> 1) ^ 0xEDB8_8320
    } else {
        c >> 1
    }
}

/// The CRC-32 of `data`, which a map file is checked by.
pub fn crc32(data: &[u8]) -> (r: u32)
    ensures
        r == crc32_of(data@),
{
    let n: usize = data.len();
    let mut c: u32 = 0xFFFF_FFFF;
    let mut i: usize = 0;
    while i < n
        invariant
            i <= n,
            n == data@.len(),
            c == crc_register(data@.subrange(0, i as int)),
        decreases n - i,
    {
        assert(data@.subrange(0, i + 1).drop_last() =~= data@.subrange(0, i as int));
        c = shift(shift(shift(shift(shift(shift(shift(shift(c ^ (data[i] as u32)))))))));
        i += 1;
    }
    assert(data@.subrange(0, n as int) =~= data@);
    c ^ 0xFFFF_FFFF
}

} // verus!

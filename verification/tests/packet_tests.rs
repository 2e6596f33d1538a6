use subspace_client::checksum::{crc32, weapon_checksum};
use subspace_client::clock::{LocalTick, ServerTick};
use subspace_client::codec::{
    i16_to_u16, i32_to_u32, i8_to_u8, read_i16, read_i32, read_u16, read_u32, u16_to_i16,
    u16_to_le, u32_to_i32, u32_to_le, u8_to_i8, wrap_to_i32,
};
use subspace_client::net::packet::{Packet, MAX_PACKET_SIZE};
use subspace_client::player::PlayerId;

#[test]
fn little_endian_reads() {
    let data = [0x34u8, 0x12, 0xFF, 0xFF, 0x78, 0x56, 0x34, 0x92];
    assert_eq!(read_u16(&data, 0), 0x1234);
    assert_eq!(read_i16(&data, 2), -1);
    assert_eq!(read_u32(&data, 4), 0x9234_5678);
    assert_eq!(read_i32(&data, 4), 0x9234_5678u32 as i32);
    assert_eq!(read_i16(&data, 0), 0x1234);
}

#[test]
fn little_endian_writes() {
    assert_eq!(u16_to_le(0xABCD), [0xCD, 0xAB]);
    assert_eq!(u32_to_le(0x0102_0304), [4, 3, 2, 1]);
}

#[test]
fn signed_reinterpretation() {
    assert_eq!(u8_to_i8(0xFF), -1);
    assert_eq!(u8_to_i8(0x80), -128);
    assert_eq!(i8_to_u8(-2), 0xFE);
    assert_eq!(u16_to_i16(0x8000), i16::MIN);
    assert_eq!(i16_to_u16(-1), 0xFFFF);
    assert_eq!(u32_to_i32(0xFFFF_FFFE), -2);
    assert_eq!(i32_to_u32(i32::MIN), 0x8000_0000);
    assert_eq!(wrap_to_i32(0x1_0000_0005), 5);
    assert_eq!(wrap_to_i32(-0x8000_0001), 0x7FFF_FFFF);
}

#[test]
fn empty_packet() {
    let p = Packet::empty();
    assert_eq!(p.size, 0);
    assert_eq!(p.data(), &[] as &[u8]);
    assert_eq!(p.remaining(), MAX_PACKET_SIZE);
}

#[test]
fn packet_from_bytes() {
    let p = Packet::new(&[1, 2, 3]);
    assert_eq!(p.data(), &[1, 2, 3]);
    assert_eq!(p.remaining(), 517);
    let full = Packet::new(&[7u8; 520]);
    assert_eq!(full.size, 520);
    assert_eq!(full.remaining(), 0);
}

#[test]
fn reliable_header() {
    let p = Packet::new_reliable(0x0102_0304, &[0xAA, 0xBB]);
    assert_eq!(p.data(), &[0x00, 0x03, 4, 3, 2, 1, 0xAA, 0xBB]);
    let largest = Packet::new_reliable(1, &[0u8; 514]);
    assert_eq!(largest.size, 520);
}

#[test]
fn reliable_ack_header() {
    let p = Packet::new_reliable_ack(258);
    assert_eq!(p.data(), &[0x00, 0x04, 2, 1, 0, 0]);
}

#[test]
fn sync_response_layout() {
    let p = Packet::new_sync_response_at(ServerTick::new(0x11223344, 0), LocalTick::new(5));
    assert_eq!(p.data(), &[0x00, 0x06, 0x44, 0x33, 0x22, 0x11, 5, 0, 0, 0]);
    let q = Packet::new_sync_response(ServerTick::new(7, 0));
    assert_eq!(q.size, 10);
    assert_eq!(&q.data()[..6], &[0x00, 0x06, 7, 0, 0, 0]);
}

#[test]
fn concat_builders() {
    let p = Packet::empty()
        .concat_u8(0x7F)
        .concat_i8(-1)
        .concat_u16(0x1234)
        .concat_i16(-2)
        .concat_u32(0xDEAD_BEEF)
        .concat_i32(-3)
        .concat_player_id(PlayerId::new(0x0506))
        .concat_bytes(&[9, 9])
        .concat_str("hi");
    assert_eq!(
        p.data(),
        &[
            0x7F, 0xFF, 0x34, 0x12, 0xFE, 0xFF, 0xEF, 0xBE, 0xAD, 0xDE, 0xFD, 0xFF, 0xFF, 0xFF,
            0x06, 0x05, 9, 9, b'h', b'i', 0
        ]
    );
}

#[test]
fn write_builders() {
    let mut p = Packet::empty();
    p.write_u8(1);
    p.write_i8(-128);
    p.write_u16(0x0203);
    p.write_i16(i16::MIN);
    p.write_u32(0x0405_0607);
    p.write_i32(-1);
    p.write_player_id(PlayerId::invalid());
    p.write_bytes(&[0xAB]);
    p.write_str("é");
    assert_eq!(
        p.data(),
        &[
            1, 0x80, 3, 2, 0x00, 0x80, 7, 6, 5, 4, 0xFF, 0xFF, 0xFF, 0xFF, 0xFF, 0xFF, 0xAB, 0xC3,
            0xA9, 0
        ]
    );
}

#[test]
fn string_terminator_overwrites_old_bytes() {
    let mut p = Packet::new(&[0xFF; 8]);
    p.size = 0;
    p.write_str("ab");
    assert_eq!(p.data(), &[b'a', b'b', 0]);
}

#[test]
fn fixed_string_is_padded() {
    let mut p = Packet::new(&[0xFF; 8]);
    p.size = 1;
    p.write_fixed_str("abc", 5);
    assert_eq!(p.data(), &[0xFF, b'a', b'b', b'c', 0, 0]);
}

#[test]
fn fixed_string_is_truncated() {
    let mut p = Packet::empty();
    p.write_fixed_str("abcdef", 4);
    assert_eq!(p.data(), b"abcd");
    p.write_fixed_str("xyz", 0);
    assert_eq!(p.size, 4);
}

#[test]
fn packet_filled_to_the_brim() {
    let mut p = Packet::new(&[1u8; 516]);
    p.write_u32(0x0403_0201);
    assert_eq!(p.size, 520);
    assert_eq!(&p.data()[516..], &[1, 2, 3, 4]);
}

#[test]
fn player_id_values() {
    assert_eq!(PlayerId::new(5).value, 5);
    assert_eq!(PlayerId::invalid().value, 0xFFFF);
    let id: PlayerId = 9u16.into();
    assert!(id == PlayerId::new(9));
}

#[test]
fn crc32_known_values() {
    assert_eq!(crc32(b"123456789"), 0xCBF4_3926);
    assert_eq!(crc32(b""), 0);
    assert_eq!(crc32(&[0]), 0xD202_EF8D);
}

#[test]
fn weapon_checksum_is_xor_of_bytes() {
    assert_eq!(weapon_checksum(&[]), 0);
    assert_eq!(weapon_checksum(&[0x0F, 0xF0, 0x01]), 0xFE);
    assert_eq!(weapon_checksum(&[3, 0, 125, 196]), 186);
}

#[test]
fn new_packet_is_zero_behind_the_cursor() {
    let p = Packet::new(&[7, 8, 9]);
    assert!(p.data[3..].iter().all(|b| *b == 0));
    let r = Packet::new_reliable(5, &[1]);
    assert!(r.data[7..].iter().all(|b| *b == 0));
    let a = Packet::new_reliable_ack(5);
    assert!(a.data[6..].iter().all(|b| *b == 0));
    assert!(Packet::empty().data.iter().all(|b| *b == 0));
}

#[test]
fn appending_leaves_the_bytes_behind_the_cursor() {
    let mut p = Packet::new(&[0xAA; 12]);
    p.size = 2;
    let q = p.concat_u16(0x0102);
    assert_eq!(q.data(), &[0xAA, 0xAA, 2, 1]);
    assert_eq!(&q.data[4..12], &[0xAA; 8]);
    assert!(q.data[12..].iter().all(|b| *b == 0));
    let mut w = p;
    w.write_u8(5);
    w.write_fixed_str("x", 3);
    assert_eq!(w.data(), &[0xAA, 0xAA, 5, b'x', 0, 0]);
    assert_eq!(&w.data[6..12], &[0xAA; 6]);
}

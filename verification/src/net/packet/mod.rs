//! The packet buffer: at most 520 bytes, built by appending.

pub mod bi;
pub mod c2s;
pub mod s2c;
pub mod sequencer;

use crate::clock::{LocalTick, ServerTick};
use crate::codec::{
    i16_bytes, i16_to_u16, i32_bytes, i32_to_u32, i8_to_u8, u16_bytes, u16_to_le, u32_bytes,
    u32_to_le, unsigned8,
};
use crate::player::PlayerId;
use vstd::prelude::*;
use vstd::utf8::encode_utf8;

verus! {

/// Largest datagram the protocol carries.
pub const MAX_PACKET_SIZE: usize = 520;

/// `bytes` cut or zero-padded on the right to exactly `width` bytes.
pub open spec fn fixed_width(bytes: Seq<u8>, width: int) -> Seq<u8> {
    Seq::new(
        width as nat,
        |i: int|
            if i < bytes.len() {
                bytes[i]
            } else {
                0u8
            },
    )
}

#[derive(Copy, Clone)]
pub struct Packet {
    pub data: [u8; MAX_PACKET_SIZE],
    pub size: usize,
}

impl Packet {
    /// The cursor stays inside the buffer.
    pub open spec fn wf(&self) -> bool {
        self.size <= MAX_PACKET_SIZE
    }

    /// The bytes written so far.
    pub open spec fn view(&self) -> Seq<u8> {
        self.data@.subrange(0, self.size as int)
    }

    /// From `at` on, the buffer holds what the buffer of `other` holds.
    pub open spec fn same_behind(&self, other: &Packet, at: int) -> bool {
        forall|i: int| at <= i < MAX_PACKET_SIZE ==> self.data@[i] == other.data@[i]
    }

    /// Every byte of the buffer behind the cursor is zero.
    pub open spec fn blank_behind(&self) -> bool {
        forall|i: int| self.size <= i < MAX_PACKET_SIZE ==> self.data@[i] == 0
    }

    /// A packet with nothing written, over a buffer of zeros.
    pub fn empty() -> (r: Self)
        ensures
            r.wf(),
            r.size == 0,
            r.blank_behind(),
            r@ == Seq::<u8>::empty(),
            r.data@ == Seq::new(MAX_PACKET_SIZE as nat, |i: int| 0u8),
    {
        let r = Self { data: [0; MAX_PACKET_SIZE], size: 0 };
        assert(r.data@ =~= Seq::new(MAX_PACKET_SIZE as nat, |i: int| 0u8));
        r
    }

    pub fn new(message: &[u8]) -> (r: Self)
        requires
            message@.len() <= MAX_PACKET_SIZE,
        ensures
            r.wf(),
            r.size == message@.len(),
            r.blank_behind(),
            r@ == message@,
    {
        let mut r = Self::empty();
        r.write_bytes(message);
        r
    }

    /// A reliable-data packet: the two header bytes `00 03`, the id, then
    /// the message.
    pub fn new_reliable(id: u32, message: &[u8]) -> (r: Self)
        requires
            message@.len() + 6 <= MAX_PACKET_SIZE,
        ensures
            r.wf(),
            r.size == message@.len() + 6,
            r.blank_behind(),
            r@ == seq![0x00u8, 0x03u8] + u32_bytes(id) + message@,
    {
        let mut r = Self::empty();
        r.write_u8(0x00);
        r.write_u8(0x03);
        r.write_u32(id);
        r.write_bytes(message);
        r
    }

    /// A reliable acknowledgement: the two header bytes `00 04`, then the
    /// id.
    pub fn new_reliable_ack(id: u32) -> (r: Self)
        ensures
            r.wf(),
            r.size == 6,
            r.blank_behind(),
            r@ == seq![0x00u8, 0x04u8] + u32_bytes(id),
    {
        let mut r = Self::empty();
        r.write_u8(0x00);
        r.write_u8(0x04);
        r.write_u32(id);
        r
    }

    /// A sync response stamped with the current local tick: `00 06`, the
    /// tick received, then the local tick, whatever the clock says.
    pub fn new_sync_response(recv_timestamp: ServerTick) -> (r: Self)
        ensures
            r.wf(),
            r.size == 10,
            r.blank_behind(),
            r@.subrange(0, 6) == seq![0x00u8, 0x06u8] + u32_bytes(recv_timestamp.spec_value()),
    {
        let r = Self::new_sync_response_at(recv_timestamp, LocalTick::now());
        r
    }

    /// A sync response stamped with `local_timestamp`: `00 06`, the tick
    /// received, then the local tick.
    pub fn new_sync_response_at(recv_timestamp: ServerTick, local_timestamp: LocalTick) -> (r: Self)
        ensures
            r.wf(),
            r.size == 10,
            r.blank_behind(),
            r@ == seq![0x00u8, 0x06u8] + u32_bytes(recv_timestamp.spec_value()) + u32_bytes(
                local_timestamp.spec_value(),
            ),
    {
        let mut r = Self::empty();
        r.write_u8(0x00);
        r.write_u8(0x06);
        r.write_u32(recv_timestamp.value());
        r.write_u32(local_timestamp.value());
        r
    }

    pub fn data(&self) -> (r: &[u8])
        requires
            self.wf(),
        ensures
            r@ == self@,
    {
        let whole = self.data.as_slice();
        let r = &whole[0..self.size];
        r
    }

    pub fn concat_u8(self, val: u8) -> (r: Self)
        requires
            self.wf(),
            self.size + 1 <= MAX_PACKET_SIZE,
        ensures
            r.wf(),
            r.size == self.size + 1,
            r.same_behind(&self, r.size as int),
            r@ == self@.push(val),
    {
        let mut r = self;
        r.write_u8(val);
        r
    }

    pub fn concat_u16(self, val: u16) -> (r: Self)
        requires
            self.wf(),
            self.size + 2 <= MAX_PACKET_SIZE,
        ensures
            r.wf(),
            r.size == self.size + 2,
            r.same_behind(&self, r.size as int),
            r@ == self@ + u16_bytes(val),
    {
        let mut r = self;
        r.write_u16(val);
        r
    }

    pub fn concat_player_id(self, val: PlayerId) -> (r: Self)
        requires
            self.wf(),
            self.size + 2 <= MAX_PACKET_SIZE,
        ensures
            r.wf(),
            r.size == self.size + 2,
            r.same_behind(&self, r.size as int),
            r@ == self@ + u16_bytes(val.value),
    {
        self.concat_u16(val.value)
    }

    pub fn concat_u32(self, val: u32) -> (r: Self)
        requires
            self.wf(),
            self.size + 4 <= MAX_PACKET_SIZE,
        ensures
            r.wf(),
            r.size == self.size + 4,
            r.same_behind(&self, r.size as int),
            r@ == self@ + u32_bytes(val),
    {
        let mut r = self;
        r.write_u32(val);
        r
    }

    pub fn concat_i8(self, val: i8) -> (r: Self)
        requires
            self.wf(),
            self.size + 1 <= MAX_PACKET_SIZE,
        ensures
            r.wf(),
            r.size == self.size + 1,
            r.same_behind(&self, r.size as int),
            r@ == self@.push(unsigned8(val)),
    {
        let mut r = self;
        r.write_i8(val);
        r
    }

    pub fn concat_i16(self, val: i16) -> (r: Self)
        requires
            self.wf(),
            self.size + 2 <= MAX_PACKET_SIZE,
        ensures
            r.wf(),
            r.size == self.size + 2,
            r.same_behind(&self, r.size as int),
            r@ == self@ + i16_bytes(val),
    {
        let mut r = self;
        r.write_i16(val);
        r
    }

    pub fn concat_i32(self, val: i32) -> (r: Self)
        requires
            self.wf(),
            self.size + 4 <= MAX_PACKET_SIZE,
        ensures
            r.wf(),
            r.size == self.size + 4,
            r.same_behind(&self, r.size as int),
            r@ == self@ + i32_bytes(val),
    {
        let mut r = self;
        r.write_i32(val);
        r
    }

    /// Appends the string's UTF-8 bytes and a terminating zero.
    pub fn concat_str(self, val: &str) -> (r: Self)
        requires
            self.wf(),
            self.size + encode_utf8(val@).len() + 1 <= MAX_PACKET_SIZE,
        ensures
            r.wf(),
            r.size == self.size + encode_utf8(val@).len() + 1,
            r.same_behind(&self, r.size as int),
            r@ == self@ + encode_utf8(val@).push(0u8),
    {
        let mut r = self;
        r.write_str(val);
        r
    }

    pub fn concat_bytes(self, val: &[u8]) -> (r: Self)
        requires
            self.wf(),
            self.size + val@.len() <= MAX_PACKET_SIZE,
        ensures
            r.wf(),
            r.size == self.size + val@.len(),
            r.same_behind(&self, r.size as int),
            r@ == self@ + val@,
    {
        let mut r = self;
        r.write_bytes(val);
        r
    }

    pub fn write_u8(&mut self, val: u8)
        requires
            old(self).wf(),
            old(self).size + 1 <= MAX_PACKET_SIZE,
        ensures
            final(self).wf(),
            final(self).size == old(self).size + 1,
            final(self).same_behind(old(self), final(self).size as int),
            final(self)@ == old(self)@.push(val),
    {
        self.data[self.size] = val;
        self.size += 1;
    }

    pub fn write_u16(&mut self, val: u16)
        requires
            old(self).wf(),
            old(self).size + 2 <= MAX_PACKET_SIZE,
        ensures
            final(self).wf(),
            final(self).size == old(self).size + 2,
            final(self).same_behind(old(self), final(self).size as int),
            final(self)@ == old(self)@ + u16_bytes(val),
    {
        let bytes = u16_to_le(val);
        self.write_bytes(bytes.as_slice());
    }

    pub fn write_player_id(&mut self, val: PlayerId)
        requires
            old(self).wf(),
            old(self).size + 2 <= MAX_PACKET_SIZE,
        ensures
            final(self).wf(),
            final(self).size == old(self).size + 2,
            final(self).same_behind(old(self), final(self).size as int),
            final(self)@ == old(self)@ + u16_bytes(val.value),
    {
        self.write_u16(val.value)
    }

    pub fn write_u32(&mut self, val: u32)
        requires
            old(self).wf(),
            old(self).size + 4 <= MAX_PACKET_SIZE,
        ensures
            final(self).wf(),
            final(self).size == old(self).size + 4,
            final(self).same_behind(old(self), final(self).size as int),
            final(self)@ == old(self)@ + u32_bytes(val),
    {
        let bytes = u32_to_le(val);
        self.write_bytes(bytes.as_slice());
    }

    pub fn write_i8(&mut self, val: i8)
        requires
            old(self).wf(),
            old(self).size + 1 <= MAX_PACKET_SIZE,
        ensures
            final(self).wf(),
            final(self).size == old(self).size + 1,
            final(self).same_behind(old(self), final(self).size as int),
            final(self)@ == old(self)@.push(unsigned8(val)),
    {
        self.write_u8(i8_to_u8(val));
    }

    pub fn write_i16(&mut self, val: i16)
        requires
            old(self).wf(),
            old(self).size + 2 <= MAX_PACKET_SIZE,
        ensures
            final(self).wf(),
            final(self).size == old(self).size + 2,
            final(self).same_behind(old(self), final(self).size as int),
            final(self)@ == old(self)@ + i16_bytes(val),
    {
        self.write_u16(i16_to_u16(val));
    }

    pub fn write_i32(&mut self, val: i32)
        requires
            old(self).wf(),
            old(self).size + 4 <= MAX_PACKET_SIZE,
        ensures
            final(self).wf(),
            final(self).size == old(self).size + 4,
            final(self).same_behind(old(self), final(self).size as int),
            final(self)@ == old(self)@ + i32_bytes(val),
    {
        self.write_u32(i32_to_u32(val));
    }

    /// Appends the string's UTF-8 bytes and a terminating zero.
    pub fn write_str(&mut self, val: &str)
        requires
            old(self).wf(),
            old(self).size + encode_utf8(val@).len() + 1 <= MAX_PACKET_SIZE,
        ensures
            final(self).wf(),
            final(self).size == old(self).size + encode_utf8(val@).len() + 1,
            final(self).same_behind(old(self), final(self).size as int),
            final(self)@ == old(self)@ + encode_utf8(val@).push(0u8),
    {
        self.write_bytes(val.as_bytes());
        self.write_u8(0);
    }

    pub fn write_bytes(&mut self, val: &[u8])
        requires
            old(self).wf(),
            old(self).size + val@.len() <= MAX_PACKET_SIZE,
        ensures
            final(self).wf(),
            final(self).size == old(self).size + val@.len(),
            final(self).same_behind(old(self), final(self).size as int),
            final(self)@ == old(self)@ + val@,
    {
        let n: usize = val.len();
        let mut i: usize = 0;
        while i < n
            invariant
                n == val@.len(),
                i <= n,
                old(self).size + n <= MAX_PACKET_SIZE,
                self.size == old(self).size + i,
                self.same_behind(old(self), self.size as int),
                self@ == old(self)@ + val@.subrange(0, i as int),
            decreases n - i,
        {
            let ghost before = self@;
            self.data[self.size] = val[i];
            self.size += 1;
            i += 1;
            assert(self@ =~= before.push(val@[i - 1]));
        }
    }

    /// Appends exactly `size` bytes: the string's UTF-8 bytes, cut when
    /// they are too many and padded with zeros when they are too few.
    pub fn write_fixed_str(&mut self, val: &str, size: usize)
        requires
            old(self).wf(),
            old(self).size + size <= MAX_PACKET_SIZE,
        ensures
            final(self).wf(),
            final(self).size == old(self).size + size,
            final(self).same_behind(old(self), final(self).size as int),
            final(self)@ == old(self)@ + fixed_width(encode_utf8(val@), size as int),
    {
        let bytes = val.as_bytes();
        let mut i: usize = 0;
        while i < size
            invariant
                bytes@ == encode_utf8(val@),
                i <= size,
                old(self).size + size <= MAX_PACKET_SIZE,
                self.size == old(self).size + i,
                self.same_behind(old(self), self.size as int),
                self@ == old(self)@ + fixed_width(bytes@, size as int).subrange(0, i as int),
            decreases size - i,
        {
            let ghost before = self@;
            let b: u8 = if i < bytes.len() {
                bytes[i]
            } else {
                0
            };
            self.data[self.size] = b;
            self.size += 1;
            i += 1;
            assert(self@ =~= before.push(b));
        }
    }

    /// Bytes still free in the buffer.
    pub fn remaining(&self) -> (r: usize)
        requires
            self.wf(),
        ensures
            r == MAX_PACKET_SIZE - self.size,
    {
        MAX_PACKET_SIZE - self.size
    }
}

/// A message that can be laid out as one packet.
pub trait Serialize {
    /// Whether the message fits one packet.
    spec fn fits(&self) -> bool;

    /// The bytes of the message on the wire.
    spec fn wire(&self) -> Seq<u8>;

    fn serialize(&self) -> (p: Packet)
        requires
            self.fits(),
        ensures
            p.wf(),
            p@ == self.wire(),
    ;
}

} // verus!

//! Core messages that travel in both directions: reliable data and its
//! acknowledgement, clock sync, disconnect, chunks and clusters.
//!
//! Every core packet starts with a zero byte followed by its type byte.

use crate::clock::{tick_wrap, LocalTick, ServerTick};
use crate::codec::{
    le_u32, lemma_u32_roundtrip, read_u32, u32_bytes,
};
use crate::error::{DecodeError, MessageKind};
use crate::net::packet::{Packet, Serialize, MAX_PACKET_SIZE};
use vstd::prelude::*;

verus! {

/// Why a packet whose payload starts at `header` cannot be a core message
/// of type `kind` that needs `min` bytes and carries its payload in one
/// packet buffer.
pub open spec fn payload_error(p: Seq<u8>, min: int, header: int, kind: u8) -> Option<DecodeError> {
    if p.len() < min {
        Some(DecodeError::TooShort(MessageKind::Core(kind)))
    } else if p.len() - header > MAX_PACKET_SIZE {
        Some(DecodeError::TooLong(MessageKind::Core(kind)))
    } else {
        None
    }
}

fn parse_payload(packet: &[u8], min: usize, header: usize, kind: u8) -> (r: Result<
    Packet,
    DecodeError,
>)
    requires
        header <= min,
    ensures
        match r {
            Ok(data) => payload_error(packet@, min as int, header as int, kind) is None
                && data.wf() && data@ == packet@.subrange(header as int, packet@.len() as int),
            Err(e) => payload_error(packet@, min as int, header as int, kind) == Some(e),
        },
{
    if packet.len() < min {
        return Err(DecodeError::TooShort(MessageKind::Core(kind)));
    }
    if packet.len() - header > MAX_PACKET_SIZE {
        return Err(DecodeError::TooLong(MessageKind::Core(kind)));
    }
    Ok(Packet::new(&packet[header..packet.len()]))
}

/// Core message `0x03`: a payload under a reliable id.
pub struct ReliableDataMessage {
    pub id: u32,
    pub data: Packet,
}

impl ReliableDataMessage {
    /// Why a packet is refused as this message, if it is: it needs the
    /// six header bytes and at least one payload byte.
    pub open spec fn decode_error(p: Seq<u8>) -> Option<DecodeError> {
        payload_error(p, 7, 6, 0x03)
    }

    /// Every field holds what packet `p` says at the field's place.
    pub open spec fn decodes(&self, p: Seq<u8>) -> bool {
        &&& self.id == le_u32(p, 2)
        &&& self.data.wf()
        &&& self.data@ == p.subrange(6, p.len() as int)
    }

    /// Decodes the message from a whole packet, header included.
    pub fn parse(packet: &[u8]) -> (r: Result<ReliableDataMessage, DecodeError>)
        ensures
            match r {
                Ok(m) => Self::decode_error(packet@) is None && m.decodes(packet@),
                Err(e) => Self::decode_error(packet@) == Some(e),
            },
    {
        let data = parse_payload(packet, 7, 6, 0x03)?;
        Ok(ReliableDataMessage { id: read_u32(packet, 2), data })
    }
}

impl Serialize for ReliableDataMessage {
    open spec fn fits(&self) -> bool {
        self.data.wf() && self.data.size + 6 <= MAX_PACKET_SIZE
    }

    open spec fn wire(&self) -> Seq<u8> {
        seq![0x00u8, 0x03u8] + u32_bytes(self.id) + self.data@
    }

    fn serialize(&self) -> (p: Packet) {
        let p = Packet::empty().concat_u8(0x00).concat_u8(0x03).concat_u32(self.id).concat_bytes(
            self.data.data(),
        );
        p
    }
}

/// Core message `0x04`: the acknowledgement of a reliable id.
pub struct ReliableAckMessage {
    pub id: u32,
}

impl ReliableAckMessage {
    /// Why a packet is refused as this message, if it is.
    pub open spec fn decode_error(p: Seq<u8>) -> Option<DecodeError> {
        if p.len() < 6 {
            Some(DecodeError::TooShort(MessageKind::Core(0x04)))
        } else {
            None
        }
    }

    /// Every field holds what packet `p` says at the field's place.
    pub open spec fn decodes(&self, p: Seq<u8>) -> bool {
        self.id == le_u32(p, 2)
    }

    /// Decodes the message from a whole packet, header included.
    pub fn parse(packet: &[u8]) -> (r: Result<ReliableAckMessage, DecodeError>)
        ensures
            match r {
                Ok(m) => Self::decode_error(packet@) is None && m.decodes(packet@),
                Err(e) => Self::decode_error(packet@) == Some(e),
            },
    {
        if packet.len() < 6 {
            return Err(DecodeError::TooShort(MessageKind::Core(0x04)));
        }
        Ok(ReliableAckMessage { id: read_u32(packet, 2) })
    }
}

impl Serialize for ReliableAckMessage {
    open spec fn fits(&self) -> bool {
        true
    }

    open spec fn wire(&self) -> Seq<u8> {
        seq![0x00u8, 0x04u8] + u32_bytes(self.id)
    }

    fn serialize(&self) -> (p: Packet) {
        let p = Packet::empty().concat_u8(0x00).concat_u8(0x04).concat_u32(self.id);
        p
    }
}

/// Core message `0x05`: the request that opens a clock sync.
pub struct SyncRequestMessage {
    pub local_tick: LocalTick,
    pub packets_sent: u32,
    pub packets_recv: u32,
}

impl SyncRequestMessage {
    /// A request stamped with the current local tick, whatever the clock
    /// says.
    pub fn new(packets_sent: u32, packets_recv: u32) -> (r: Self)
        ensures
            r.local_tick.wf(),
            r.packets_sent == packets_sent,
            r.packets_recv == packets_recv,
    {
        Self::at(LocalTick::now(), packets_sent, packets_recv)
    }

    /// A request stamped with `local_tick`.
    pub fn at(local_tick: LocalTick, packets_sent: u32, packets_recv: u32) -> (r: Self)
        ensures
            r.local_tick == local_tick,
            r.packets_sent == packets_sent,
            r.packets_recv == packets_recv,
    {
        Self { local_tick, packets_sent, packets_recv }
    }
}

impl Serialize for SyncRequestMessage {
    open spec fn fits(&self) -> bool {
        true
    }

    open spec fn wire(&self) -> Seq<u8> {
        seq![0x00u8, 0x05u8] + u32_bytes(self.local_tick.spec_value()) + u32_bytes(
            self.packets_sent,
        ) + u32_bytes(self.packets_recv)
    }

    fn serialize(&self) -> (p: Packet) {
        let p = Packet::empty().concat_u8(0x00).concat_u8(0x05).concat_u32(
            self.local_tick.value(),
        ).concat_u32(self.packets_sent).concat_u32(self.packets_recv);
        p
    }
}

/// Core message `0x06`: the answer to a sync request, which repeats the
/// request's local tick and adds the server's tick.
pub struct SyncResponseMessage {
    pub request_timestamp: LocalTick,
    pub server_timestamp: ServerTick,
}

impl SyncResponseMessage {
    /// Why a packet is refused as this message, if it is.
    pub open spec fn decode_error(p: Seq<u8>) -> Option<DecodeError> {
        if p.len() < 10 {
            Some(DecodeError::TooShort(MessageKind::Core(0x06)))
        } else {
            None
        }
    }

    /// Every field holds what packet `p` says at the field's place.
    pub open spec fn decodes(&self, p: Seq<u8>) -> bool {
        &&& self.request_timestamp.spec_value() == tick_wrap(le_u32(p, 2) as int)
        &&& self.server_timestamp.spec_value() == tick_wrap(le_u32(p, 6) as int)
    }

    /// Decodes the message from a whole packet, header included.
    pub fn parse(packet: &[u8]) -> (r: Result<SyncResponseMessage, DecodeError>)
        ensures
            match r {
                Ok(m) => Self::decode_error(packet@) is None && m.decodes(packet@),
                Err(e) => Self::decode_error(packet@) == Some(e),
            },
    {
        if packet.len() < 10 {
            return Err(DecodeError::TooShort(MessageKind::Core(0x06)));
        }
        Ok(
            SyncResponseMessage {
                request_timestamp: LocalTick::new(read_u32(packet, 2)),
                server_timestamp: ServerTick::new(read_u32(packet, 6), 0),
            },
        )
    }
}

/// Core message `0x07`.
pub struct DisconnectMessage {}

impl Serialize for DisconnectMessage {
    open spec fn fits(&self) -> bool {
        true
    }

    open spec fn wire(&self) -> Seq<u8> {
        seq![0x00u8, 0x07u8]
    }

    fn serialize(&self) -> (p: Packet) {
        let p = Packet::empty().concat_u8(0x00).concat_u8(0x07);
        p
    }
}

/// Core message `0x08`: a piece of a chunked payload that is not the last.
pub struct SmallChunkBodyMessage {
    pub data: Packet,
}

impl SmallChunkBodyMessage {
    /// Why a packet is refused as this message, if it is.
    pub open spec fn decode_error(p: Seq<u8>) -> Option<DecodeError> {
        payload_error(p, 2, 2, 0x08)
    }

    /// The payload is everything after the two header bytes.
    pub open spec fn decodes(&self, p: Seq<u8>) -> bool {
        &&& self.data.wf()
        &&& self.data@ == p.subrange(2, p.len() as int)
    }

    /// Decodes the message from a whole packet, header included.
    pub fn parse(packet: &[u8]) -> (r: Result<SmallChunkBodyMessage, DecodeError>)
        ensures
            match r {
                Ok(m) => Self::decode_error(packet@) is None && m.decodes(packet@),
                Err(e) => Self::decode_error(packet@) == Some(e),
            },
    {
        let data = parse_payload(packet, 2, 2, 0x08)?;
        Ok(SmallChunkBodyMessage { data })
    }
}

/// Core message `0x09`: the last piece of a chunked payload.
pub struct SmallChunkTailMessage {
    pub data: Packet,
}

impl SmallChunkTailMessage {
    /// Why a packet is refused as this message, if it is.
    pub open spec fn decode_error(p: Seq<u8>) -> Option<DecodeError> {
        payload_error(p, 2, 2, 0x09)
    }

    /// The payload is everything after the two header bytes.
    pub open spec fn decodes(&self, p: Seq<u8>) -> bool {
        &&& self.data.wf()
        &&& self.data@ == p.subrange(2, p.len() as int)
    }

    /// Decodes the message from a whole packet, header included.
    pub fn parse(packet: &[u8]) -> (r: Result<SmallChunkTailMessage, DecodeError>)
        ensures
            match r {
                Ok(m) => Self::decode_error(packet@) is None && m.decodes(packet@),
                Err(e) => Self::decode_error(packet@) == Some(e),
            },
    {
        let data = parse_payload(packet, 2, 2, 0x09)?;
        Ok(SmallChunkTailMessage { data })
    }
}

/// Core message `0x0A`: a fragment of a payload whose whole size is
/// announced in every fragment.
pub struct HugeChunkMessage {
    pub total_size: u32,
    pub data: Packet,
}

impl HugeChunkMessage {
    /// Why a packet is refused as this message, if it is.
    pub open spec fn decode_error(p: Seq<u8>) -> Option<DecodeError> {
        payload_error(p, 6, 6, 0x0A)
    }

    /// Every field holds what packet `p` says at the field's place.
    pub open spec fn decodes(&self, p: Seq<u8>) -> bool {
        &&& self.total_size == le_u32(p, 2)
        &&& self.data.wf()
        &&& self.data@ == p.subrange(6, p.len() as int)
    }

    /// Decodes the message from a whole packet, header included.
    pub fn parse(packet: &[u8]) -> (r: Result<HugeChunkMessage, DecodeError>)
        ensures
            match r {
                Ok(m) => Self::decode_error(packet@) is None && m.decodes(packet@),
                Err(e) => Self::decode_error(packet@) == Some(e),
            },
    {
        let data = parse_payload(packet, 6, 6, 0x0A)?;
        Ok(HugeChunkMessage { total_size: read_u32(packet, 2), data })
    }
}

impl Serialize for HugeChunkMessage {
    open spec fn fits(&self) -> bool {
        self.data.wf() && self.data.size + 6 <= MAX_PACKET_SIZE
    }

    open spec fn wire(&self) -> Seq<u8> {
        seq![0x00u8, 0x0Au8] + u32_bytes(self.total_size) + self.data@
    }

    fn serialize(&self) -> (p: Packet) {
        let p = Packet::empty().concat_u8(0x00).concat_u8(0x0A).concat_u32(
            self.total_size,
        ).concat_bytes(self.data.data());
        p
    }
}

/// Core message `0x0B`.
pub struct HugeChunkCancelMessage {}

impl Serialize for HugeChunkCancelMessage {
    open spec fn fits(&self) -> bool {
        true
    }

    open spec fn wire(&self) -> Seq<u8> {
        seq![0x00u8, 0x0Bu8]
    }

    fn serialize(&self) -> (p: Packet) {
        let p = Packet::empty().concat_u8(0x00).concat_u8(0x0B);
        p
    }
}

/// Core message `0x0C`.
pub struct HugeChunkCancelAckMessage {}

impl Serialize for HugeChunkCancelAckMessage {
    open spec fn fits(&self) -> bool {
        true
    }

    open spec fn wire(&self) -> Seq<u8> {
        seq![0x00u8, 0x0Cu8]
    }

    fn serialize(&self) -> (p: Packet) {
        let p = Packet::empty().concat_u8(0x00).concat_u8(0x0C);
        p
    }
}

/// Core message `0x0E`: several packets in one, each behind a length byte.
pub struct ClusterMessage {
    pub data: Packet,
}

impl ClusterMessage {
    /// Why a packet is refused as this message, if it is.
    pub open spec fn decode_error(p: Seq<u8>) -> Option<DecodeError> {
        payload_error(p, 2, 2, 0x0E)
    }

    /// The payload is everything after the two header bytes.
    pub open spec fn decodes(&self, p: Seq<u8>) -> bool {
        &&& self.data.wf()
        &&& self.data@ == p.subrange(2, p.len() as int)
    }

    /// Decodes the message from a whole packet, header included.
    pub fn parse(packet: &[u8]) -> (r: Result<ClusterMessage, DecodeError>)
        ensures
            match r {
                Ok(m) => Self::decode_error(packet@) is None && m.decodes(packet@),
                Err(e) => Self::decode_error(packet@) == Some(e),
            },
    {
        let data = parse_payload(packet, 2, 2, 0x0E)?;
        Ok(ClusterMessage { data })
    }
}

impl Serialize for ClusterMessage {
    open spec fn fits(&self) -> bool {
        self.data.wf() && self.data.size + 2 <= MAX_PACKET_SIZE
    }

    open spec fn wire(&self) -> Seq<u8> {
        seq![0x00u8, 0x0Eu8] + self.data@
    }

    fn serialize(&self) -> (p: Packet) {
        let p = Packet::empty().concat_u8(0x00).concat_u8(0x0E).concat_bytes(self.data.data());
        p
    }
}

/// A reliable-data message that carries at least one byte decodes from its
/// own wire form to the same id and payload.
pub proof fn lemma_reliable_data_roundtrip(m: ReliableDataMessage, parsed: ReliableDataMessage)
    requires
        m.fits(),
        m.data.size >= 1,
        parsed.decodes(m.wire()),
    ensures
        ReliableDataMessage::decode_error(m.wire()) is None,
        parsed.id == m.id,
        parsed.data@ == m.data@,
{
    lemma_u32_roundtrip(m.id);
    let w = m.wire();
}

/// A reliable acknowledgement decodes from its own wire form to the same
/// id.
pub proof fn lemma_reliable_ack_roundtrip(m: ReliableAckMessage, parsed: ReliableAckMessage)
    requires
        parsed.decodes(m.wire()),
    ensures
        ReliableAckMessage::decode_error(m.wire()) is None,
        parsed.id == m.id,
{
    lemma_u32_roundtrip(m.id);
}

/// A huge-chunk fragment decodes from its own wire form to the same total
/// size and payload.
pub proof fn lemma_huge_chunk_roundtrip(m: HugeChunkMessage, parsed: HugeChunkMessage)
    requires
        m.fits(),
        parsed.decodes(m.wire()),
    ensures
        HugeChunkMessage::decode_error(m.wire()) is None,
        parsed.total_size == m.total_size,
        parsed.data@ == m.data@,
{
    lemma_u32_roundtrip(m.total_size);
    let w = m.wire();
}

/// A cluster decodes from its own wire form to the same payload.
pub proof fn lemma_cluster_roundtrip(m: ClusterMessage, parsed: ClusterMessage)
    requires
        m.fits(),
        parsed.decodes(m.wire()),
    ensures
        ClusterMessage::decode_error(m.wire()) is None,
        parsed.data@ == m.data@,
{
    let w = m.wire();
}

} // verus!

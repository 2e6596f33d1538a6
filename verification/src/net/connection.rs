//! The connection: cipher and sequencer put together, without the
//! socket.
//!
//! The embedder owns the socket and the clock. It hands every datagram it
//! receives to `receive`, calls `retransmit` and `poll` on its rounds, and
//! puts every packet that comes back on the wire.

use crate::clock::{LocalTick, ServerTick};
use crate::codec::{trunc_div, u16_bytes, u32_bytes, wrap_i32, wrap_to_i32};
use crate::error::DecodeError;
use crate::net::crypt::{decrypted, encrypted, VieEncrypt, KEYSTREAM_SIZE};
use crate::net::packet::bi::HugeChunkCancelAckMessage;
use crate::net::packet::c2s::EncryptionRequestMessage;
use crate::net::packet::s2c::{CoreServerMessage, GameServerMessage, ServerMessage};
use crate::net::packet::sequencer::{
    decoded_from, id_plus, next_id, oldest_due, Delivery, PacketSequencer, ReliableMessage,
};
use crate::net::packet::{Packet, Serialize, MAX_PACKET_SIZE};
use crate::player::PlayerId;
use vstd::prelude::*;

verus! {

#[derive(Debug, Copy, Clone, PartialEq, Eq, Structural)]
pub enum ConnectionState {
    EncryptionHandshake,
    Authentication,
    Registering,
    ArenaLogin,
    MapDownload,
    Playing,
    Disconnected,
}

/// Why a packet was not sent.
#[derive(Debug, Copy, Clone, PartialEq, Eq, Structural)]
pub enum SendError {
    /// The packet or payload is empty.
    Empty,
    /// The payload does not fit one packet beside its header.
    TooLarge,
}

/// Bytes of the reliable header: two type bytes and the id.
pub const RELIABLE_HEADER_SIZE: usize = 6;

/// Bytes of the chunk header.
pub const CHUNK_HEADER_SIZE: usize = 2;

/// Largest payload of one reliable packet.
pub const MAX_RELIABLE_PAYLOAD: usize = 514;

/// Largest piece of a payload that one chunk carries.
pub const MAX_CHUNK_PAYLOAD: usize = 512;

/// A payload behind the reliable header for `id`.
pub open spec fn reliable_frame(id: u32, payload: Seq<u8>) -> Seq<u8> {
    seq![0x00u8, 0x03u8] + u32_bytes(id) + payload
}

/// The acknowledgement of `id`.
pub open spec fn ack_frame(id: u32) -> Seq<u8> {
    seq![0x00u8, 0x04u8] + u32_bytes(id)
}

/// The number of chunks that a payload of `len` bytes is cut into.
pub open spec fn chunk_count(len: int) -> int {
    (len + MAX_CHUNK_PAYLOAD - 1) / (MAX_CHUNK_PAYLOAD as int)
}

/// Chunk `i` of a payload: the chunk header, which marks the last chunk
/// as the tail and every other as body, and up to 512 bytes of the
/// payload.
pub open spec fn chunk_piece(data: Seq<u8>, i: int) -> Seq<u8> {
    let from = MAX_CHUNK_PAYLOAD * i;
    let to = if from + MAX_CHUNK_PAYLOAD < data.len() {
        from + MAX_CHUNK_PAYLOAD
    } else {
        data.len() as int
    };
    seq![
        0x00u8,
        if to == data.len() {
            0x09u8
        } else {
            0x08u8
        },
    ] + data.subrange(from, to)
}

/// The payloads that a reliable send of `data` puts on the wire, each in
/// a reliable packet of its own: `data` itself when it fits one, its
/// chunks otherwise.
pub open spec fn reliable_pieces(data: Seq<u8>) -> Seq<Seq<u8>> {
    if data.len() <= MAX_RELIABLE_PAYLOAD {
        seq![data]
    } else {
        Seq::new(chunk_count(data.len() as int) as nat, |i: int| chunk_piece(data, i))
    }
}

/// The offset of the server clock against the local clock after a sync
/// response: three fifths of the round trip, plus the server's tick,
/// minus the local tick, in 32 signed bits.
pub open spec fn sync_offset(now: u32, request: u32, server: u32) -> i32 {
    let rtt = now as int - request as int;
    wrap_i32(trunc_div(rtt * 3, 5) + server as int - now as int)
}

/// The bytes of a list of packets.
pub open spec fn wires(packets: Seq<Packet>) -> Seq<Seq<u8>> {
    packets.map_values(|p: Packet| p@)
}

pub struct Connection {
    pub state: ConnectionState,
    pub sequencer: PacketSequencer,
    /// Offset of the server clock against the local clock, in ticks.
    pub tick_diff: i32,
    pub player_id: PlayerId,
    pub crypt: VieEncrypt,
}

impl Connection {
    pub open spec fn wf(&self) -> bool {
        self.sequencer.wf()
    }

    /// The connection moved to `state`, with nothing else changed.
    pub open spec fn in_state(&self, state: ConnectionState) -> Connection {
        Connection { state, ..*self }
    }

    /// `bytes` as the cipher in its present state puts them on the wire.
    pub open spec fn sealed(&self, bytes: Seq<u8>) -> Seq<u8> {
        encrypted(self.crypt.keystream@, self.crypt.session_key, bytes)
    }

    /// `bytes` from the wire as the cipher in its present state reads
    /// them.
    pub open spec fn opened(&self, bytes: Seq<u8>) -> Seq<u8> {
        decrypted(self.crypt.keystream@, self.crypt.session_key, bytes)
    }

    /// A connection that has just asked for encryption with `client_key`.
    pub open spec fn is_fresh(&self, client_key: u32) -> bool {
        &&& self.state == ConnectionState::EncryptionHandshake
        &&& self.tick_diff == 0
        &&& self.player_id.value == 0xFFFF
        &&& self.crypt.client_key == client_key
        &&& self.crypt.session_key == 0
        &&& self.sequencer.next_process_id == 0
        &&& self.sequencer.next_reliable_gen_id == 0
        &&& self.sequencer.reliable_sent@.len() == 0
        &&& self.sequencer.reliable_queue@.len() == 0
        &&& self.sequencer.ready().len() == 0
        &&& self.sequencer.chunk_data@.len() == 0
    }

    /// Opens a connection with a client key drawn from clock and random
    /// generator, and hands back the encryption request to send.
    pub fn new() -> (r: (Connection, Packet))
        ensures
            r.0.wf(),
            r.0.is_fresh(r.0.crypt.client_key),
            r.1.wf(),
            r.1@ == seq![0x00u8, 0x01u8] + u32_bytes(r.0.crypt.client_key) + u16_bytes(1),
    {
        Self::with_key(VieEncrypt::generate_key())
    }

    /// Opens a connection with `client_key`, and hands back the
    /// encryption request to send.
    pub fn with_key(client_key: u32) -> (r: (Connection, Packet))
        ensures
            r.0.wf(),
            r.0.is_fresh(client_key),
            r.1.wf(),
            r.1@ == seq![0x00u8, 0x01u8] + u32_bytes(client_key) + u16_bytes(1),
    {
        let connection = Self {
            state: ConnectionState::EncryptionHandshake,
            sequencer: PacketSequencer::new(),
            tick_diff: 0,
            player_id: PlayerId::invalid(),
            crypt: VieEncrypt::new(client_key),
        };
        let request = EncryptionRequestMessage::new(client_key).serialize();
        (connection, request)
    }

    /// The server tick of the current wall-clock time.
    pub fn get_server_tick(&self) -> (r: ServerTick)
        ensures
            r.wf(),
    {
        ServerTick::now(self.tick_diff)
    }

    /// The server tick that the local tick `local` corresponds to.
    pub fn server_tick_at(&self, local: LocalTick) -> (r: ServerTick)
        ensures
            r.wf(),
            r.spec_value() == crate::clock::tick_wrap(
                local.spec_value() as int + self.tick_diff as int,
            ),
    {
        ServerTick::new(local.value(), self.tick_diff)
    }

    fn seal(&self, packet: &Packet) -> (r: Packet)
        requires
            packet.wf(),
        ensures
            r.wf(),
            r.size == packet.size,
            r@ == self.sealed(packet@),
    {
        let plain = packet.data();
        let mut dest: Vec<u8> = vec![0u8; plain.len()];
        self.crypt.encrypt(plain, dest.as_mut_slice());
        Packet::new(dest.as_slice())
    }

    /// Lays a message out and seals it for the wire.
    pub fn send<T: Serialize>(&mut self, message: &T) -> (r: Result<Packet, SendError>)
        requires
            message.fits(),
        ensures
            *final(self) == *old(self),
            match r {
                Ok(p) => message.wire().len() > 0 && p.wf() && p@ == old(self).sealed(
                    message.wire(),
                ),
                Err(e) => message.wire().len() == 0 && e == SendError::Empty,
            },
    {
        let packet = message.serialize();
        self.send_packet(&packet)
    }

    /// Lays a message out, parks it under the next reliable id and seals
    /// the reliable packet for the wire.
    pub fn send_reliable<T: Serialize>(&mut self, message: &T, now: LocalTick) -> (r: Result<
        Packet,
        SendError,
    >)
        requires
            old(self).wf(),
            message.fits(),
        ensures
            final(self).wf(),
            old(self).sent_reliably(final(self), message.wire(), now, r),
    {
        let packet = message.serialize();
        self.send_reliable_packet(&packet, now)
    }

    /// Seals a packet for the wire. An empty packet is refused.
    pub fn send_packet(&mut self, packet: &Packet) -> (r: Result<Packet, SendError>)
        requires
            packet.wf(),
        ensures
            *final(self) == *old(self),
            match r {
                Ok(p) => packet.size > 0 && p.wf() && p@ == old(self).sealed(packet@),
                Err(e) => packet.size == 0 && e == SendError::Empty,
            },
    {
        if packet.size == 0 {
            return Err(SendError::Empty);
        }
        Ok(self.seal(packet))
    }

    /// What a reliable send of one payload does: an empty payload and one
    /// of more than 514 bytes are refused and change nothing; any other
    /// is framed under the next reliable id, parked at `now`, and sealed.
    pub open spec fn sent_reliably(
        &self,
        after: &Connection,
        payload: Seq<u8>,
        now: LocalTick,
        r: Result<Packet, SendError>,
    ) -> bool {
        if payload.len() == 0 {
            r == Err::<Packet, SendError>(SendError::Empty) && *after == *self
        } else if payload.len() > MAX_RELIABLE_PAYLOAD {
            r == Err::<Packet, SendError>(SendError::TooLarge) && *after == *self
        } else {
            let id = self.sequencer.next_reliable_gen_id;
            &&& r is Ok
            &&& r->Ok_0.wf()
            &&& r->Ok_0@ == self.sealed(reliable_frame(id, payload))
            &&& after.state == self.state
            &&& after.tick_diff == self.tick_diff
            &&& after.player_id == self.player_id
            &&& after.crypt == self.crypt
            &&& after.sequencer.next_reliable_gen_id == next_id(id)
            &&& after.sequencer.next_process_id == self.sequencer.next_process_id
            &&& after.sequencer.reliable_queue@ == self.sequencer.reliable_queue@
            &&& after.sequencer.process_queue@ == self.sequencer.process_queue@
            &&& after.sequencer.chunk_data@ == self.sequencer.chunk_data@
            &&& after.sequencer.reliable_sent@.len() == self.sequencer.reliable_sent@.len() + 1
            &&& after.sequencer.reliable_sent@.drop_last() == self.sequencer.reliable_sent@
            &&& after.sequencer.reliable_sent@.last().id == id
            &&& after.sequencer.reliable_sent@.last().payload() == reliable_frame(id, payload)
            &&& after.sequencer.reliable_sent@.last().timestamp == now
        }
    }

    /// Sends one payload reliably in a single packet.
    pub fn send_reliable_packet(&mut self, packet: &Packet, now: LocalTick) -> (r: Result<
        Packet,
        SendError,
    >)
        requires
            old(self).wf(),
            packet.wf(),
        ensures
            final(self).wf(),
            old(self).sent_reliably(final(self), packet@, now, r),
    {
        if packet.size == 0 {
            return Err(SendError::Empty);
        }
        if packet.size + RELIABLE_HEADER_SIZE > MAX_PACKET_SIZE {
            return Err(SendError::TooLarge);
        }
        let id: u32 = self.sequencer.next_reliable_gen_id;
        self.sequencer.increment_id();
        let framed = Packet::new_reliable(id, packet.data());
        self.sequencer.push_reliable_sent_at(id, framed.data(), now);
        Ok(self.seal(&framed))
    }

    /// Sends a payload of any size reliably: in one packet when it fits,
    /// else cut into chunks that go out reliably one after another, the
    /// last marked as the tail. An empty payload is refused.
    pub fn send_reliable_data(&mut self, data: &[u8], now: LocalTick) -> (r: Result<
        Vec<Packet>,
        SendError,
    >)
        requires
            old(self).wf(),
        ensures
            final(self).wf(),
            data@.len() == 0 ==> r == Err::<Vec<Packet>, SendError>(SendError::Empty) && *final(self) == *old(self),
            data@.len() > 0 ==> r is Ok && old(self).sent_all(
                final(self),
                reliable_pieces(data@),
                now,
                wires(r->Ok_0@),
            ),
    {
        let len: usize = data.len();
        if len == 0 {
            return Err(SendError::Empty);
        }
        let mut sent: Vec<Packet> = Vec::new();
        if len <= MAX_RELIABLE_PAYLOAD {
            let packet = Packet::new(data);
            match self.send_reliable_packet(&packet, now) {
                Ok(sealed) => {
                    sent.push(sealed);
                },
                Err(_) => {},
            }
            proof {
                assert(wires(sent@) =~= seq![sent@[0]@]);
                assert(self.sequencer.reliable_sent@.subrange(
                    0,
                    old(self).sequencer.reliable_sent@.len() as int,
                ) =~= self.sequencer.reliable_sent@.drop_last());
            }
            return Ok(sent);
        }
        let count: usize = (len - 1) / MAX_CHUNK_PAYLOAD + 1;
        let ghost pieces = reliable_pieces(data@);
        let mut i: usize = 0;
        assert(wires(sent@) =~= Seq::<Seq<u8>>::empty());
        assert(self.sequencer.reliable_sent@.subrange(
            0,
            old(self).sequencer.reliable_sent@.len() as int,
        ) =~= old(self).sequencer.reliable_sent@);
        while i < count
            invariant
                i <= count,
                len == data@.len(),
                len > MAX_RELIABLE_PAYLOAD,
                count == chunk_count(len as int),
                pieces == reliable_pieces(data@),
                pieces.len() == count,
                self.wf(),
                sent@.len() == i,
                old(self).sent_all(self, pieces.subrange(0, i as int), now, wires(sent@)),
            decreases count - i,
        {
            let from: usize = MAX_CHUNK_PAYLOAD * i;
            let to: usize = if len - from > MAX_CHUNK_PAYLOAD {
                from + MAX_CHUNK_PAYLOAD
            } else {
                len
            };
            let tag: u8 = if to == len {
                0x09
            } else {
                0x08
            };
            let subpacket = Packet::empty().concat_u8(0x00).concat_u8(tag).concat_bytes(
                &data[from..to],
            );
            proof {
                assert(subpacket@ =~= chunk_piece(data@, i as int));
                assert(pieces[i as int] == chunk_piece(data@, i as int));
            }
            let ghost before = *self;
            let ghost wires_before = wires(sent@);
            match self.send_reliable_packet(&subpacket, now) {
                Ok(sealed) => {
                    sent.push(sealed);
                },
                Err(_) => {},
            }
            proof {
                let done = pieces.subrange(0, i as int);
                let more = pieces.subrange(0, i + 1);
                assert(more =~= done.push(pieces[i as int]));
                assert(wires(sent@) =~= wires_before.push(sent@[i as int]@));
                lemma_sent_one_more(
                    *old(self),
                    before,
                    *self,
                    done,
                    pieces[i as int],
                    now,
                    wires_before,
                    sent@[i as int],
                );
            }
            i += 1;
        }
        assert(pieces.subrange(0, count as int) =~= pieces);
        Ok(sent)
    }

    /// What a reliable send of several payloads in a row does: payload
    /// `i` is framed under the `i`-th id from the next one on, parked at
    /// `now` behind the messages parked before, and sealed; the next id
    /// moves on by their number.
    pub open spec fn sent_all(
        &self,
        after: &Connection,
        payloads: Seq<Seq<u8>>,
        now: LocalTick,
        sealed: Seq<Seq<u8>>,
    ) -> bool {
        let first = self.sequencer.next_reliable_gen_id;
        let parked = self.sequencer.reliable_sent@.len() as int;
        &&& after.state == self.state
        &&& after.tick_diff == self.tick_diff
        &&& after.player_id == self.player_id
        &&& after.crypt == self.crypt
        &&& after.sequencer.next_reliable_gen_id == id_plus(first, payloads.len())
        &&& after.sequencer.next_process_id == self.sequencer.next_process_id
        &&& after.sequencer.reliable_queue@ == self.sequencer.reliable_queue@
        &&& after.sequencer.process_queue@ == self.sequencer.process_queue@
        &&& after.sequencer.chunk_data@ == self.sequencer.chunk_data@
        &&& after.sequencer.reliable_sent@.len() == parked + payloads.len()
        &&& after.sequencer.reliable_sent@.subrange(0, parked) == self.sequencer.reliable_sent@
        &&& sealed.len() == payloads.len()
        &&& forall|i: int|
            0 <= i < payloads.len() ==> {
                let id = id_plus(first, i as nat);
                let message = #[trigger] after.sequencer.reliable_sent@[parked + i];
                &&& message.id == id
                &&& message.payload() == reliable_frame(id, payloads[i])
                &&& message.timestamp == now
                &&& sealed[i] == self.sealed(reliable_frame(id, payloads[i]))
            }
    }

    /// What a round of retransmission does at `now`: the oldest parked
    /// message whose last transmission lies 300 ticks back or more is
    /// stamped with `now`, and its packet goes out again, sealed.
    pub open spec fn resent(&self, after: &Connection, now: LocalTick, r: Option<Packet>) -> bool {
        &&& after.state == self.state
        &&& after.tick_diff == self.tick_diff
        &&& after.player_id == self.player_id
        &&& after.crypt == self.crypt
        &&& after.sequencer.next_process_id == self.sequencer.next_process_id
        &&& after.sequencer.next_reliable_gen_id == self.sequencer.next_reliable_gen_id
        &&& after.sequencer.reliable_queue@ == self.sequencer.reliable_queue@
        &&& after.sequencer.process_queue@ == self.sequencer.process_queue@
        &&& after.sequencer.chunk_data@ == self.sequencer.chunk_data@
        &&& match oldest_due(
            self.sequencer.reliable_sent@,
            now.spec_value(),
            self.sequencer.reliable_sent@.len(),
        ) {
            None => r is None && after.sequencer.reliable_sent@ == self.sequencer.reliable_sent@,
            Some(i) => {
                &&& r is Some
                &&& r.unwrap().wf()
                &&& r.unwrap()@ == self.sealed(
                    self.sequencer.reliable_sent@[i].payload(),
                )
                &&& after.sequencer.reliable_sent@ == self.sequencer.reliable_sent@.update(
                    i,
                    ReliableMessage {
                        timestamp: now,
                        ..self.sequencer.reliable_sent@[i]
                    },
                )
            },
        }
    }

    /// Sends again what is due at `now`.
    pub fn retransmit(&mut self, now: LocalTick) -> (r: Option<Packet>)
        requires
            old(self).wf(),
        ensures
            final(self).wf(),
            old(self).resent(final(self), now, r),
    {
        match self.sequencer.tick_at(now) {
            Some(packet) => Some(self.seal(&packet)),
            None => None,
        }
    }

    /// Everything but the sequencer is as it was.
    pub open spec fn same_session(&self, after: &Connection) -> bool {
        &&& after.state == self.state
        &&& after.tick_diff == self.tick_diff
        &&& after.player_id == self.player_id
        &&& after.crypt == self.crypt
    }

    /// What a message from the server does to the connection at `now`,
    /// and the sealed replies that go out, in their order.
    ///
    /// An encryption response keys the cipher; a valid key moves a
    /// handshake on to authentication, an invalid one disconnects.
    /// Reliable data are queued and acknowledged at once, a duplicate like
    /// any other. Acknowledgements, chunks and clusters go to the
    /// sequencer. A sync response sets the clock offset. A huge-chunk
    /// cancellation empties the chunk buffer and is acknowledged. A
    /// disconnect order disconnects. A player id message names this
    /// client. No other message touches the connection.
    #[verifier::opaque]
    pub open spec fn processed(
        &self,
        after: &Connection,
        message: &ServerMessage,
        now: LocalTick,
        replies: Seq<Seq<u8>>,
    ) -> bool {
        match message {
            ServerMessage::Core(CoreServerMessage::EncryptionResponse(m)) => {
                &&& replies.len() == 0
                &&& self.crypt.keyed(&after.crypt, m.key)
                &&& after.state == (if !self.crypt.spec_is_valid_key(m.key) {
                    ConnectionState::Disconnected
                } else if self.state == ConnectionState::EncryptionHandshake {
                    ConnectionState::Authentication
                } else {
                    self.state
                })
                &&& after.tick_diff == self.tick_diff
                &&& after.player_id == self.player_id
                &&& after.sequencer == self.sequencer
            },
            ServerMessage::Core(CoreServerMessage::ReliableData(m)) => {
                &&& replies == seq![self.sealed(ack_frame(m.id))]
                &&& self.same_session(after)
                &&& self.sequencer.took_reliable(&after.sequencer, m.id, &m.data)
            },
            ServerMessage::Core(CoreServerMessage::ReliableAck(m)) => {
                &&& replies.len() == 0
                &&& self.same_session(after)
                &&& self.sequencer.took_ack(&after.sequencer, m.id)
            },
            ServerMessage::Core(CoreServerMessage::SyncResponse(m)) => {
                &&& replies.len() == 0
                &&& after.tick_diff == sync_offset(
                    now.spec_value(),
                    m.request_timestamp.spec_value(),
                    m.server_timestamp.spec_value(),
                )
                &&& after.state == self.state
                &&& after.player_id == self.player_id
                &&& after.crypt == self.crypt
                &&& after.sequencer == self.sequencer
            },
            ServerMessage::Core(CoreServerMessage::Disconnect) => {
                &&& replies.len() == 0
                &&& after.state == ConnectionState::Disconnected
                &&& after.tick_diff == self.tick_diff
                &&& after.player_id == self.player_id
                &&& after.crypt == self.crypt
                &&& after.sequencer == self.sequencer
            },
            ServerMessage::Core(CoreServerMessage::SmallChunkBody(m)) => {
                &&& replies.len() == 0
                &&& self.same_session(after)
                &&& self.sequencer.took_chunk_body(&after.sequencer, &m.data)
            },
            ServerMessage::Core(CoreServerMessage::SmallChunkTail(m)) => {
                &&& replies.len() == 0
                &&& self.same_session(after)
                &&& self.sequencer.took_chunk_tail(&after.sequencer, &m.data)
            },
            ServerMessage::Core(CoreServerMessage::HugeChunk(m)) => {
                &&& replies.len() == 0
                &&& self.same_session(after)
                &&& self.sequencer.took_huge_chunk(&after.sequencer, m)
            },
            ServerMessage::Core(CoreServerMessage::HugeChunkCancel) => {
                &&& replies == seq![self.sealed(seq![0x00u8, 0x0Cu8])]
                &&& self.same_session(after)
                &&& self.sequencer.took_cancel(&after.sequencer)
            },
            ServerMessage::Core(CoreServerMessage::HugeChunkCancelAck) => {
                &&& replies.len() == 0
                &&& *after == *self
            },
            ServerMessage::Core(CoreServerMessage::Cluster(m)) => {
                &&& replies.len() == 0
                &&& self.same_session(after)
                &&& self.sequencer.took_cluster(&after.sequencer, m)
            },
            ServerMessage::Game(GameServerMessage::PlayerId(m)) => {
                &&& replies.len() == 0
                &&& after.player_id.value == m.id
                &&& after.state == self.state
                &&& after.tick_diff == self.tick_diff
                &&& after.crypt == self.crypt
                &&& after.sequencer == self.sequencer
            },
            ServerMessage::Game(_) => {
                &&& replies.len() == 0
                &&& *after == *self
            },
        }
    }

    /// Every payload that the message carries keeps inside its buffer,
    /// as the payloads of decoded messages do.
    pub open spec fn carries_whole_payloads(message: &ServerMessage) -> bool {
        match message {
            ServerMessage::Core(CoreServerMessage::ReliableData(m)) => m.data.wf(),
            ServerMessage::Core(CoreServerMessage::SmallChunkBody(m)) => m.data.wf(),
            ServerMessage::Core(CoreServerMessage::SmallChunkTail(m)) => m.data.wf(),
            ServerMessage::Core(CoreServerMessage::HugeChunk(m)) => m.data.wf(),
            ServerMessage::Core(CoreServerMessage::Cluster(m)) => m.data.wf(),
            _ => true,
        }
    }

    /// Takes a message from the server into account and hands back the
    /// sealed replies to send.
    pub fn process_packet(&mut self, message: &ServerMessage, now: LocalTick) -> (r: Vec<Packet>)
        requires
            old(self).wf(),
            Self::carries_whole_payloads(message),
        ensures
            final(self).wf(),
            old(self).processed(final(self), message, now, wires(r@)),
    {
        let mut replies: Vec<Packet> = Vec::new();
        proof {
            reveal(Connection::processed);
        }
        match message {
            ServerMessage::Core(kind) => match kind {
                CoreServerMessage::EncryptionResponse(response) => {
                    if self.crypt.initialize(response.key) {
                        if self.state == ConnectionState::EncryptionHandshake {
                            self.state = ConnectionState::Authentication;
                        }
                    } else {
                        self.state = ConnectionState::Disconnected;
                    }
                },
                CoreServerMessage::ReliableAck(ack) => {
                    self.sequencer.handle_ack(ack.id);
                },
                CoreServerMessage::ReliableData(rel) => {
                    self.sequencer.handle_reliable_message(rel.id, &rel.data);
                    let ack = Packet::new_reliable_ack(rel.id);
                    replies.push(self.seal(&ack));
                    assert(wires(replies@) =~= seq![old(self).sealed(ack_frame(rel.id))]);
                },
                CoreServerMessage::SyncResponse(sync) => {
                    self.tick_diff = compute_sync_offset(
                        now,
                        sync.request_timestamp,
                        sync.server_timestamp,
                    );
                },
                CoreServerMessage::Disconnect => {
                    self.state = ConnectionState::Disconnected;
                },
                CoreServerMessage::SmallChunkBody(chunk) => {
                    self.sequencer.handle_small_chunk_body(&chunk.data);
                },
                CoreServerMessage::SmallChunkTail(tail) => {
                    self.sequencer.handle_small_chunk_tail(&tail.data);
                },
                CoreServerMessage::HugeChunk(chunk) => {
                    self.sequencer.handle_huge_chunk(chunk);
                },
                CoreServerMessage::HugeChunkCancel => {
                    self.sequencer.handle_huge_chunk_cancel();
                    let cancel = HugeChunkCancelAckMessage {  }.serialize();
                    replies.push(self.seal(&cancel));
                    assert(wires(replies@) =~= seq![old(self).sealed(seq![0x00u8, 0x0Cu8])]);
                },
                CoreServerMessage::HugeChunkCancelAck => {},
                CoreServerMessage::Cluster(cluster) => {
                    self.sequencer.handle_cluster(cluster);
                },
            },
            ServerMessage::Game(kind) => match kind {
                GameServerMessage::PlayerId(message) => {
                    self.player_id = PlayerId::new(message.id);
                },
                _ => {},
            },
        }
        replies
    }

    /// What a datagram from the wire does at `now`: it is opened by the
    /// cipher and decoded; a message that comes out is processed, and
    /// anything else leaves the connection as it was.
    pub open spec fn received(
        &self,
        after: &Connection,
        datagram: Seq<u8>,
        now: LocalTick,
        r: Result<Option<ServerMessage>, DecodeError>,
        replies: Seq<Seq<u8>>,
    ) -> bool {
        &&& decoded_from(r, self.opened(datagram))
        &&& match r {
            Ok(Some(m)) => self.processed(after, &m, now, replies),
            _ => *after == *self && replies.len() == 0,
        }
    }

    /// Takes a datagram from the wire and hands back what it decoded to
    /// and the sealed replies to send.
    pub fn receive(&mut self, datagram: &[u8], now: LocalTick) -> (r: (
        Result<Option<ServerMessage>, DecodeError>,
        Vec<Packet>,
    ))
        requires
            old(self).wf(),
            old(self).crypt.session_key == 0 || datagram@.len() <= KEYSTREAM_SIZE,
        ensures
            final(self).wf(),
            old(self).received(final(self), datagram@, now, r.0, wires(r.1@)),
    {
        let mut plain: Vec<u8> = crate::text::copy_bytes(datagram);
        self.crypt.decrypt(plain.as_mut_slice());
        let parsed = ServerMessage::parse(plain.as_slice());
        match parsed {
            Ok(Some(message)) => {
                let replies = self.process_packet(&message, now);
                (Ok(Some(message)), replies)
            },
            other => {
                let replies: Vec<Packet> = Vec::new();
                (other, replies)
            },
        }
    }

    /// What a round of delivery does at `now`: the sequencer hands out its
    /// next payload, which leaves the connection in the state `mid`; the
    /// payload is decoded, and a message that comes out is processed.
    pub open spec fn polled(
        &self,
        mid: &Connection,
        after: &Connection,
        now: LocalTick,
        r: Result<Option<ServerMessage>, DecodeError>,
        replies: Seq<Seq<u8>>,
    ) -> bool {
        &&& self.same_session(mid)
        &&& self.sequencer.delivered_to(&mid.sequencer)
        &&& mid.wf()
        &&& match self.sequencer.next_delivery() {
            Delivery::Nothing => r == Ok::<Option<ServerMessage>, DecodeError>(None),
            Delivery::Assembled(bytes) => decoded_from(r, bytes),
            Delivery::Reliable(_, bytes) => decoded_from(r, bytes),
        }
        &&& match r {
            Ok(Some(m)) => mid.processed(after, &m, now, replies),
            _ => *after == *mid && replies.len() == 0,
        }
    }

    /// Takes the next payload from the sequencer and hands back what it
    /// decoded to and the sealed replies to send.
    pub fn poll(&mut self, now: LocalTick) -> (r: (
        Result<Option<ServerMessage>, DecodeError>,
        Vec<Packet>,
    ))
        requires
            old(self).wf(),
        ensures
            final(self).wf(),
            exists|mid: Connection|
                #[trigger] old(self).polled(&mid, final(self), now, r.0, wires(r.1@)),
    {
        let popped = self.sequencer.pop_process_queue();
        let ghost mid = *self;
        match popped {
            Ok(Some(message)) => {
                let replies = self.process_packet(&message, now);
                let out = (Ok(Some(message)), replies);
                assert(old(self).polled(&mid, self, now, out.0, wires(out.1@)));
                out
            },
            other => {
                let replies: Vec<Packet> = Vec::new();
                let out = (other, replies);
                assert(old(self).polled(&mid, self, now, out.0, wires(out.1@)));
                out
            },
        }
    }

    /// One round of the connection at `now` that goes through the state
    /// `first`: what is due is sent again as `again`, which leaves the
    /// connection in `first`; then the datagram that arrived is taken in,
    /// or, when there is none, the sequencer's next payload, with
    /// `replies` to send.
    pub open spec fn ticked_through(
        &self,
        first: &Connection,
        again: Option<Packet>,
        replies: Seq<Seq<u8>>,
        after: &Connection,
        received: Option<Seq<u8>>,
        now: LocalTick,
        r: Result<Option<ServerMessage>, DecodeError>,
    ) -> bool {
        &&& self.resent(first, now, again)
        &&& match received {
            Some(datagram) => first.received(after, datagram, now, r, replies),
            None => exists|second: Connection|
                #[trigger] first.polled(&second, after, now, r, replies),
        }
    }

    /// What one round of the connection does at `now`, with the datagram
    /// that arrived for it, if any: first what is due is sent again; then
    /// the datagram is taken in, or, when there is none, the sequencer's
    /// next payload. The packets to send come out in that order.
    pub open spec fn ticked(
        &self,
        after: &Connection,
        received: Option<Seq<u8>>,
        now: LocalTick,
        outgoing: Seq<Seq<u8>>,
        r: Result<Option<ServerMessage>, DecodeError>,
    ) -> bool {
        exists|first: Connection, again: Option<Packet>, replies: Seq<Seq<u8>>|
            {
                &&& #[trigger] self.ticked_through(&first, again, replies, after, received, now, r)
                &&& outgoing == (match again {
                    Some(p) => seq![p@] + replies,
                    None => replies,
                })
            }
    }

    /// Runs one round of the connection at `now` with the datagram that
    /// arrived for it, if any, and hands back the packets to send and the
    /// message that came of it.
    pub fn tick(&mut self, received: Option<&[u8]>, now: LocalTick) -> (r: (
        Vec<Packet>,
        Result<Option<ServerMessage>, DecodeError>,
    ))
        requires
            old(self).wf(),
            received matches Some(datagram) ==> datagram@.len() <= KEYSTREAM_SIZE,
        ensures
            final(self).wf(),
            old(self).ticked(
                final(self),
                match received {
                    Some(datagram) => Some(datagram@),
                    None => None,
                },
                now,
                wires(r.0@),
                r.1,
            ),
    {
        let mut outgoing: Vec<Packet> = Vec::new();
        let again = self.retransmit(now);
        let ghost first = *self;
        match again {
            Some(packet) => {
                outgoing.push(packet);
            },
            None => {},
        }
        let ghost sent_again = wires(outgoing@);
        assert(sent_again =~= (match again {
            Some(p) => seq![p@],
            None => Seq::<Seq<u8>>::empty(),
        }));
        match received {
            Some(datagram) => {
                let (message, mut replies) = self.receive(datagram, now);
                let ghost reply_wires = wires(replies@);
                outgoing.append(&mut replies);
                proof {
                    assert(wires(outgoing@) =~= sent_again + reply_wires);
                    lemma_ticked(
                        *old(self),
                        first,
                        first,
                        *self,
                        Some(datagram@),
                        now,
                        again,
                        reply_wires,
                        message,
                    );
                }
                (outgoing, message)
            },
            None => {
                let (message, mut replies) = self.poll(now);
                let ghost reply_wires = wires(replies@);
                outgoing.append(&mut replies);
                proof {
                    assert(wires(outgoing@) =~= sent_again + reply_wires);
                    let second = choose|mid: Connection|
                        #[trigger] first.polled(&mid, self, now, message, reply_wires);
                    lemma_ticked(
                        *old(self),
                        first,
                        second,
                        *self,
                        None,
                        now,
                        again,
                        reply_wires,
                        message,
                    );
                }
                (outgoing, message)
            },
        }
    }
}

/// The clock offset after a sync response that arrived at `now`.
pub fn compute_sync_offset(now: LocalTick, request: LocalTick, server: ServerTick) -> (r: i32)
    ensures
        r == sync_offset(now.spec_value(), request.spec_value(), server.spec_value()),
{
    let local: i64 = now.value() as i64;
    let scaled: i64 = (local - (request.value() as i64)) * 3;
    let part: i64 = if scaled >= 0 {
        scaled / 5
    } else {
        -((-scaled) / 5)
    };
    wrap_to_i32(part + (server.value() as i64) - local)
}

/// Every arrival of reliable data, a duplicate like any other, is answered
/// with exactly one acknowledgement, which names the id that arrived; and
/// the data wait to be delivered in the order of their ids.
pub proof fn lemma_reliable_data_is_acknowledged(
    before: Connection,
    after: Connection,
    m: crate::net::packet::bi::ReliableDataMessage,
    now: LocalTick,
    replies: Seq<Seq<u8>>,
)
    requires
        before.processed(
            &after,
            &ServerMessage::Core(CoreServerMessage::ReliableData(m)),
            now,
            replies,
        ),
    ensures
        replies.len() == 1,
        replies[0] == before.sealed(ack_frame(m.id)),
        before.sequencer.took_reliable(&after.sequencer, m.id, &m.data),
{
    reveal(Connection::processed);
}

proof fn lemma_ticked(
    start: Connection,
    first: Connection,
    second: Connection,
    after: Connection,
    received: Option<Seq<u8>>,
    now: LocalTick,
    again: Option<Packet>,
    replies: Seq<Seq<u8>>,
    r: Result<Option<ServerMessage>, DecodeError>,
)
    requires
        start.resent(&first, now, again),
        match received {
            Some(datagram) => first.received(&after, datagram, now, r, replies),
            None => first.polled(&second, &after, now, r, replies),
        },
    ensures
        start.ticked(
            &after,
            received,
            now,
            match again {
                Some(p) => seq![p@] + replies,
                None => Seq::<Seq<u8>>::empty() + replies,
            },
            r,
        ),
{
    assert(start.ticked_through(&first, again, replies, &after, received, now, r));
}

proof fn lemma_sent_one_more(
    start: Connection,
    before: Connection,
    after: Connection,
    done: Seq<Seq<u8>>,
    piece: Seq<u8>,
    now: LocalTick,
    sealed_before: Seq<Seq<u8>>,
    sealed: Packet,
)
    requires
        start.sent_all(&before, done, now, sealed_before),
        0 < piece.len() <= MAX_RELIABLE_PAYLOAD,
        before.sent_reliably(&after, piece, now, Ok::<Packet, SendError>(sealed)),
    ensures
        start.sent_all(&after, done.push(piece), now, sealed_before.push(sealed@)),
{
    let first = start.sequencer.next_reliable_gen_id;
    let parked = start.sequencer.reliable_sent@.len() as int;
    let n = done.len() as int;
    assert(next_id(id_plus(first, n as nat)) == id_plus(first, (n + 1) as nat));
    assert(after.sequencer.reliable_sent@.subrange(0, parked) =~= before.sequencer.reliable_sent@.subrange(
        0,
        parked,
    ));
    assert forall|i: int| 0 <= i < n + 1 implies {
        let id = id_plus(first, i as nat);
        let message = #[trigger] after.sequencer.reliable_sent@[parked + i];
        &&& message.id == id
        &&& message.payload() == reliable_frame(id, done.push(piece)[i])
        &&& message.timestamp == now
        &&& sealed_before.push(sealed@)[i] == start.sealed(reliable_frame(id, done.push(piece)[i]))
    } by {
        if i < n {
            assert(after.sequencer.reliable_sent@[parked + i]
                == after.sequencer.reliable_sent@.drop_last()[parked + i]);
            assert(before.sequencer.reliable_sent@[parked + i].id == id_plus(first, i as nat));
        } else {
            assert(after.sequencer.reliable_sent@[parked + i]
                == after.sequencer.reliable_sent@.last());
        }
    }
}

} // verus!

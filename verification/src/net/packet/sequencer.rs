//! The reliability layer: retransmission of unacknowledged packets,
//! in-order delivery of reliable messages, and the reassembly of clusters
//! and chunks.

use crate::clock::{tick_diff, tick_wrap, LocalTick};
use crate::error::DecodeError;
use crate::net::packet::bi::{ClusterMessage, HugeChunkMessage};
use crate::net::packet::s2c::{packet_error, ServerMessage};
use crate::net::packet::{Packet, MAX_PACKET_SIZE};
use std::collections::VecDeque;
use vstd::prelude::*;

verus! {

/// Ticks that a reliable packet waits for its acknowledgement before it
/// is sent again.
pub const RESEND_DELAY: i32 = 300;

/// A reliable packet with the tick of its last transmission.
pub struct ReliableMessage {
    pub id: u32,
    pub timestamp: LocalTick,
    pub size: usize,
    pub message: [u8; MAX_PACKET_SIZE],
}

impl ReliableMessage {
    /// The size stays inside the buffer.
    pub open spec fn wf(&self) -> bool {
        self.size <= MAX_PACKET_SIZE
    }

    /// The bytes of the message.
    pub open spec fn payload(&self) -> Seq<u8> {
        self.message@.subrange(0, self.size as int)
    }

    /// Every byte of the buffer behind the message is zero.
    pub open spec fn blank_behind(&self) -> bool {
        forall|i: int| self.size <= i < MAX_PACKET_SIZE ==> self.message@[i] == 0
    }

    /// A message stamped with the current tick, whatever the clock says.
    pub fn new(id: u32, message: &[u8]) -> (r: Self)
        requires
            message@.len() <= MAX_PACKET_SIZE,
        ensures
            r.wf(),
            r.id == id,
            r.size == message@.len(),
            r.payload() == message@,
            r.blank_behind(),
            r.timestamp.wf(),
    {
        Self::new_at(id, message, LocalTick::now())
    }

    /// A message stamped with `now`.
    pub fn new_at(id: u32, message: &[u8], now: LocalTick) -> (r: Self)
        requires
            message@.len() <= MAX_PACKET_SIZE,
        ensures
            r.wf(),
            r.id == id,
            r.size == message@.len(),
            r.payload() == message@,
            r.blank_behind(),
            r.timestamp == now,
    {
        let copy = Packet::new(message);
        Self { id, timestamp: now, size: copy.size, message: copy.data }
    }
}

/// A message is due for retransmission at `now` when its last
/// transmission lies at or before `now - 300`.
pub open spec fn is_due(sent_at: u32, now: u32) -> bool {
    tick_diff(sent_at, tick_wrap(now as int - RESEND_DELAY as int)) <= 0
}

/// Among the first `n` parked messages, the one that is due and was sent
/// the longest ago; of several sent at the same tick the one parked
/// first. Nothing when none is due.
pub open spec fn oldest_due(sent: Seq<ReliableMessage>, now: u32, n: nat) -> Option<int>
    decreases n,
{
    if n == 0 {
        None
    } else {
        let before = oldest_due(sent, now, (n - 1) as nat);
        let j = n - 1;
        if !is_due(sent[j].timestamp.spec_value(), now) {
            before
        } else {
            match before {
                None => Some(j),
                Some(b) => if tick_diff(
                    sent[j].timestamp.spec_value(),
                    sent[b].timestamp.spec_value(),
                ) < 0 {
                    Some(j)
                } else {
                    before
                },
            }
        }
    }
}

/// The place of the first message with this id, or the length of the
/// sequence when there is none.
pub open spec fn first_with_id(messages: Seq<ReliableMessage>, id: u32, from: nat) -> nat
    decreases messages.len() - from,
{
    if from >= messages.len() {
        messages.len()
    } else if messages[from as int].id == id {
        from
    } else {
        first_with_id(messages, id, from + 1)
    }
}

/// A sequence after a swap-remove at `i`: the last element takes the
/// place of the one removed.
pub open spec fn swap_removed<T>(s: Seq<T>, i: int) -> Seq<T> {
    s.update(i, s.last()).drop_last()
}

/// The subpackets of a cluster body: each is announced by a byte with its
/// length. A subpacket that the body ends in the middle of is left out.
pub open spec fn cluster_parts(data: Seq<u8>) -> Seq<Seq<u8>>
    decreases data.len(),
{
    if data.len() == 0 || 1 + data[0] as int > data.len() {
        Seq::empty()
    } else {
        seq![data.subrange(1, 1 + data[0] as int)] + cluster_parts(
            data.subrange(1 + data[0] as int, data.len() as int),
        )
    }
}

/// What a delivery hands to the application.
pub enum Delivery {
    /// Nothing is ready.
    Nothing,
    /// A payload put together from a cluster or from chunks.
    Assembled(Seq<u8>),
    /// The reliable message with this id.
    Reliable(u32, Seq<u8>),
}

/// How `r` came out of decoding `bytes`.
pub open spec fn decoded_from(
    r: Result<Option<ServerMessage>, DecodeError>,
    bytes: Seq<u8>,
) -> bool {
    match r {
        Ok(Some(m)) => packet_error(bytes) is None && m.decodes(bytes),
        Ok(None) => false,
        Err(e) => packet_error(bytes) == Some(e),
    }
}

pub struct PacketSequencer {
    pub next_process_id: u32,
    pub next_reliable_gen_id: u32,
    pub reliable_sent: Vec<ReliableMessage>,
    pub reliable_queue: Vec<ReliableMessage>,
    /// Payloads of clusters and chunks, which are handed out before any
    /// reliable message.
    pub process_queue: VecDeque<Vec<u8>>,
    pub chunk_data: Vec<u8>,
}

impl PacketSequencer {
    /// Every parked and every waiting message keeps its size inside its
    /// buffer.
    pub open spec fn wf(&self) -> bool {
        &&& forall|i: int|
            0 <= i < self.reliable_sent@.len() ==> (#[trigger] self.reliable_sent@[i]).wf()
        &&& forall|i: int|
            0 <= i < self.reliable_queue@.len() ==> (#[trigger] self.reliable_queue@[i]).wf()
    }

    /// The payloads that are ready, oldest first.
    pub open spec fn ready(&self) -> Seq<Seq<u8>> {
        self.process_queue@.map_values(|v: Vec<u8>| v@)
    }

    /// What the next delivery hands out: the oldest ready payload if
    /// there is one, else the waiting reliable message whose id is the
    /// next to be processed, else nothing.
    pub open spec fn next_delivery(&self) -> Delivery {
        if self.ready().len() > 0 {
            Delivery::Assembled(self.ready()[0])
        } else {
            let i = first_with_id(self.reliable_queue@, self.next_process_id, 0);
            if i < self.reliable_queue@.len() {
                Delivery::Reliable(self.next_process_id, self.reliable_queue@[i as int].payload())
            } else {
                Delivery::Nothing
            }
        }
    }

    /// The state that a delivery leaves behind is reached from `self`: a
    /// ready payload leaves the front of its queue; a reliable message
    /// leaves the waiting messages by swap-remove and the id to process
    /// moves on by one.
    pub open spec fn delivered_to(&self, after: &PacketSequencer) -> bool {
        &&& after.next_reliable_gen_id == self.next_reliable_gen_id
        &&& after.reliable_sent@ == self.reliable_sent@
        &&& after.chunk_data@ == self.chunk_data@
        &&& match self.next_delivery() {
            Delivery::Assembled(_) => {
                &&& after.ready() == self.ready().drop_first()
                &&& after.reliable_queue@ == self.reliable_queue@
                &&& after.next_process_id == self.next_process_id
            },
            Delivery::Reliable(_, _) => {
                &&& after.ready() == self.ready()
                &&& after.reliable_queue@ == swap_removed(
                    self.reliable_queue@,
                    first_with_id(self.reliable_queue@, self.next_process_id, 0) as int,
                )
                &&& after.next_process_id == next_id(self.next_process_id)
            },
            Delivery::Nothing => {
                &&& after.ready() == self.ready()
                &&& after.reliable_queue@ == self.reliable_queue@
                &&& after.next_process_id == self.next_process_id
            },
        }
    }

    pub fn new() -> (r: Self)
        ensures
            r.wf(),
            r.next_process_id == 0,
            r.next_reliable_gen_id == 0,
            r.reliable_sent@.len() == 0,
            r.reliable_queue@.len() == 0,
            r.ready().len() == 0,
            r.chunk_data@.len() == 0,
    {
        Self {
            next_process_id: 0,
            next_reliable_gen_id: 0,
            reliable_sent: Vec::new(),
            reliable_queue: Vec::new(),
            process_queue: VecDeque::new(),
            chunk_data: Vec::new(),
        }
    }

    /// What a round of retransmission at tick `now` does: the oldest due
    /// message, if any, is stamped with `now` and its packet handed back
    /// as `r`; without a due message nothing happens and nothing comes
    /// back. No message is added or dropped.
    pub open spec fn resent_at(
        &self,
        after: &PacketSequencer,
        now: LocalTick,
        r: Option<Packet>,
    ) -> bool {
        &&& after.next_process_id == self.next_process_id
        &&& after.next_reliable_gen_id == self.next_reliable_gen_id
        &&& after.reliable_queue@ == self.reliable_queue@
        &&& after.process_queue@ == self.process_queue@
        &&& after.chunk_data@ == self.chunk_data@
        &&& match oldest_due(self.reliable_sent@, now.spec_value(), self.reliable_sent@.len()) {
            None => r is None && after.reliable_sent@ == self.reliable_sent@,
            Some(i) => {
                &&& 0 <= i < self.reliable_sent@.len()
                &&& r is Some
                &&& r.unwrap().wf()
                &&& r.unwrap()@ == self.reliable_sent@[i].payload()
                &&& after.reliable_sent@ == self.reliable_sent@.update(
                    i,
                    ReliableMessage { timestamp: now, ..self.reliable_sent@[i] },
                )
            },
        }
    }

    /// Retransmits at the tick that the clock shows: the outcome is that
    /// of a round of retransmission at some valid tick.
    pub fn tick(&mut self) -> (r: Option<Packet>)
        requires
            old(self).wf(),
        ensures
            final(self).wf(),
            exists|now: LocalTick| now.wf() && #[trigger] old(self).resent_at(final(self), now, r),
    {
        let now = LocalTick::now();
        let r = self.tick_at(now);
        assert(old(self).resent_at(self, now, r));
        r
    }

    /// Retransmits at tick `now`: the oldest due message, if any, is
    /// stamped with `now` and its packet handed back.
    pub fn tick_at(&mut self, now: LocalTick) -> (r: Option<Packet>)
        requires
            old(self).wf(),
        ensures
            final(self).wf(),
            old(self).resent_at(final(self), now, r),
    {
        let resend_timestamp = now - RESEND_DELAY;
        proof {
            LocalTick::lemma_from_counter(
                tick_wrap(now.spec_value() as int - RESEND_DELAY as int),
            );
        }
        let count: usize = self.reliable_sent.len();
        let mut best: Option<usize> = None;
        let mut j: usize = 0;
        while j < count
            invariant
                j <= count,
                count == self.reliable_sent@.len(),
                *self == *old(self),
                resend_timestamp.spec_value() == tick_wrap(
                    now.spec_value() as int - RESEND_DELAY as int,
                ),
                match oldest_due(self.reliable_sent@, now.spec_value(), j as nat) {
                    None => best is None,
                    Some(i) => best == Some(i as usize) && 0 <= i < j,
                },
            decreases count - j,
        {
            if self.reliable_sent[j].timestamp.diff(&resend_timestamp) <= 0 {
                best = match best {
                    None => Some(j),
                    Some(b) => if self.reliable_sent[j].timestamp.diff(
                        &self.reliable_sent[b].timestamp,
                    ) < 0 {
                        Some(j)
                    } else {
                        Some(b)
                    },
                };
            }
            j += 1;
        }
        match best {
            None => None,
            Some(i) => {
                let packet = Packet::new(
                    &self.reliable_sent[i].message.as_slice()[0..self.reliable_sent[i].size],
                );
                self.reliable_sent[i].timestamp = now;
                Some(packet)
            },
        }
    }

    /// Parks a packet sent under `id`, stamped with the current tick,
    /// whatever the clock says.
    pub fn push_reliable_sent(&mut self, id: u32, message: &[u8])
        requires
            old(self).wf(),
            message@.len() <= MAX_PACKET_SIZE,
        ensures
            final(self).wf(),
            final(self).reliable_sent@.len() == old(self).reliable_sent@.len() + 1,
            final(self).reliable_sent@.drop_last() == old(self).reliable_sent@,
            final(self).reliable_sent@.last().id == id,
            final(self).reliable_sent@.last().payload() == message@,
            final(self).next_process_id == old(self).next_process_id,
            final(self).next_reliable_gen_id == old(self).next_reliable_gen_id,
            final(self).reliable_queue@ == old(self).reliable_queue@,
            final(self).process_queue@ == old(self).process_queue@,
            final(self).chunk_data@ == old(self).chunk_data@,
    {
        self.push_reliable_sent_at(id, message, LocalTick::now());
    }

    /// The state after a packet sent under `id` at `now` was parked.
    pub open spec fn parked(
        &self,
        after: &PacketSequencer,
        id: u32,
        message: Seq<u8>,
        now: LocalTick,
    ) -> bool {
        &&& after.reliable_sent@.len() == self.reliable_sent@.len() + 1
        &&& after.reliable_sent@.drop_last() == self.reliable_sent@
        &&& after.reliable_sent@.last().id == id
        &&& after.reliable_sent@.last().payload() == message
        &&& after.reliable_sent@.last().timestamp == now
        &&& after.next_process_id == self.next_process_id
        &&& after.next_reliable_gen_id == self.next_reliable_gen_id
        &&& after.reliable_queue@ == self.reliable_queue@
        &&& after.process_queue@ == self.process_queue@
        &&& after.chunk_data@ == self.chunk_data@
    }

    /// Parks a packet sent under `id` at tick `now`.
    pub fn push_reliable_sent_at(&mut self, id: u32, message: &[u8], now: LocalTick)
        requires
            old(self).wf(),
            message@.len() <= MAX_PACKET_SIZE,
        ensures
            final(self).wf(),
            old(self).parked(final(self), id, message@, now),
    {
        let reliable = ReliableMessage::new_at(id, message, now);
        self.reliable_sent.push(reliable);
        assert(self.reliable_sent@.drop_last() =~= old(self).reliable_sent@);
    }

    /// Hands out the next payload, decoded: ready payloads of clusters
    /// and chunks first, then the reliable message whose turn it is.
    pub fn pop_process_queue(&mut self) -> (r: Result<Option<ServerMessage>, DecodeError>)
        requires
            old(self).wf(),
        ensures
            final(self).wf(),
            old(self).delivered_to(final(self)),
            match old(self).next_delivery() {
                Delivery::Nothing => r == Ok::<Option<ServerMessage>, DecodeError>(None),
                Delivery::Assembled(bytes) => decoded_from(r, bytes),
                Delivery::Reliable(_, bytes) => decoded_from(r, bytes),
            },
    {
        let ghost ready_before = self.ready();
        if let Some(data) = self.process_queue.pop_front() {
            assert(self.ready() =~= ready_before.drop_first());
            return ServerMessage::parse(data.as_slice());
        }
        let count: usize = self.reliable_queue.len();
        let mut index: usize = 0;
        while index < count && self.reliable_queue[index].id != self.next_process_id
            invariant
                index <= count,
                count == self.reliable_queue@.len(),
                self.wf(),
                self.next_process_id == old(self).next_process_id,
                self.next_reliable_gen_id == old(self).next_reliable_gen_id,
                self.reliable_sent@ == old(self).reliable_sent@,
                self.reliable_queue@ == old(self).reliable_queue@,
                self.chunk_data@ == old(self).chunk_data@,
                self.ready() == old(self).ready(),
                self.ready().len() == 0,
                forall|j: int| 0 <= j < index ==> self.reliable_queue@[j].id != self.next_process_id,
            decreases count - index,
        {
            index += 1;
        }
        proof {
            lemma_first_with_id(self.reliable_queue@, self.next_process_id, 0, index as nat);
        }
        if index < count {
            self.next_process_id = self.next_process_id.wrapping_add(1);
            let rel = self.reliable_queue.swap_remove(index);
            return ServerMessage::parse(&rel.message.as_slice()[0..rel.size]);
        }
        Ok(None)
    }

    /// The state after a reliable message arrived under `id`: it waits at the end of the queue.
    pub open spec fn took_reliable(
        &self,
        after: &PacketSequencer,
        id: u32,
        packet: &Packet,
    ) -> bool {
        &&& after.reliable_queue@.len() == self.reliable_queue@.len() + 1
        &&& after.reliable_queue@.drop_last() == self.reliable_queue@
        &&& after.reliable_queue@.last().id == id
        &&& after.reliable_queue@.last().payload() == packet@
        &&& after.next_process_id == self.next_process_id
        &&& after.next_reliable_gen_id == self.next_reliable_gen_id
        &&& after.reliable_sent@ == self.reliable_sent@
        &&& after.process_queue@ == self.process_queue@
        &&& after.chunk_data@ == self.chunk_data@
    }

    /// Takes in a reliable message that arrived under `id`.
    pub fn handle_reliable_message(&mut self, id: u32, packet: &Packet)
        requires
            old(self).wf(),
            packet.wf(),
        ensures
            final(self).wf(),
            old(self).took_reliable(final(self), id, packet),
    {
        let reliable_message = ReliableMessage::new(id, packet.data());
        self.reliable_queue.push(reliable_message);
        assert(self.reliable_queue@.drop_last() =~= old(self).reliable_queue@);
    }

    /// The state after an acknowledgement of `id` arrived.
    pub open spec fn took_ack(&self, after: &PacketSequencer, id: u32) -> bool {
        &&& after.reliable_sent@ == (if first_with_id(self.reliable_sent@, id, 0)
            < self.reliable_sent@.len() {
            swap_removed(
                self.reliable_sent@,
                first_with_id(self.reliable_sent@, id, 0) as int,
            )
        } else {
            self.reliable_sent@
        })
        &&& after.next_process_id == self.next_process_id
        &&& after.next_reliable_gen_id == self.next_reliable_gen_id
        &&& after.reliable_queue@ == self.reliable_queue@
        &&& after.process_queue@ == self.process_queue@
        &&& after.chunk_data@ == self.chunk_data@
    }

    /// Takes in an acknowledgement: the first parked message with this
    /// id leaves by swap-remove; without one nothing changes.
    pub fn handle_ack(&mut self, id: u32)
        requires
            old(self).wf(),
        ensures
            final(self).wf(),
            old(self).took_ack(final(self), id),
    {
        let count: usize = self.reliable_sent.len();
        let mut index: usize = 0;
        while index < count && self.reliable_sent[index].id != id
            invariant
                index <= count,
                count == self.reliable_sent@.len(),
                *self == *old(self),
                forall|j: int| 0 <= j < index ==> self.reliable_sent@[j].id != id,
            decreases count - index,
        {
            index += 1;
        }
        proof {
            lemma_first_with_id(self.reliable_sent@, id, 0, index as nat);
        }
        if index < count {
            self.reliable_sent.swap_remove(index);
        }
    }

    /// The state after a cluster arrived.
    pub open spec fn took_cluster(
        &self,
        after: &PacketSequencer,
        cluster: &ClusterMessage,
    ) -> bool {
        &&& after.ready() == self.ready() + cluster_parts(cluster.data@)
        &&& after.next_process_id == self.next_process_id
        &&& after.next_reliable_gen_id == self.next_reliable_gen_id
        &&& after.reliable_sent@ == self.reliable_sent@
        &&& after.reliable_queue@ == self.reliable_queue@
        &&& after.chunk_data@ == self.chunk_data@
    }

    /// Takes in a cluster: its subpackets join the ready payloads in
    /// their order.
    pub fn handle_cluster(&mut self, cluster: &ClusterMessage)
        requires
            old(self).wf(),
            cluster.data.wf(),
        ensures
            final(self).wf(),
            old(self).took_cluster(final(self), cluster),
    {
        let data = cluster.data.data();
        let len: usize = data.len();
        let mut pos: usize = 0;
        assert(data@.subrange(0, len as int) =~= data@);
        while pos < len && len - pos > data[pos] as usize
            invariant
                len == data@.len(),
                pos <= len,
                self.next_process_id == old(self).next_process_id,
                self.next_reliable_gen_id == old(self).next_reliable_gen_id,
                self.reliable_sent@ == old(self).reliable_sent@,
                self.reliable_queue@ == old(self).reliable_queue@,
                self.chunk_data@ == old(self).chunk_data@,
                self.ready() + cluster_parts(data@.subrange(pos as int, len as int)) == old(
                    self,
                ).ready() + cluster_parts(data@),
            decreases len - pos,
        {
            let size: usize = data[pos] as usize;
            let ghost rest = data@.subrange(pos as int, len as int);
            let mut process_data: Vec<u8> = Vec::new();
            process_data.extend_from_slice(&data[pos + 1..pos + 1 + size]);
            proof {
                assert(process_data@ =~= rest.subrange(1, 1 + size));
                assert(rest.subrange(1 + size, rest.len() as int) =~= data@.subrange(
                    pos + 1 + size,
                    len as int,
                ));
            }
            self.process_queue.push_back(process_data);
            pos = pos + 1 + size;
        }
    }

    /// The state after a chunk that is not the last arrived.
    pub open spec fn took_chunk_body(&self, after: &PacketSequencer, packet: &Packet) -> bool {
        &&& after.chunk_data@ == self.chunk_data@ + packet@
        &&& after.next_process_id == self.next_process_id
        &&& after.next_reliable_gen_id == self.next_reliable_gen_id
        &&& after.reliable_sent@ == self.reliable_sent@
        &&& after.reliable_queue@ == self.reliable_queue@
        &&& after.process_queue@ == self.process_queue@
    }

    /// Takes in a chunk that is not the last: it joins the chunk buffer.
    pub fn handle_small_chunk_body(&mut self, packet: &Packet)
        requires
            old(self).wf(),
            packet.wf(),
        ensures
            final(self).wf(),
            old(self).took_chunk_body(final(self), packet),
    {
        self.chunk_data.extend_from_slice(packet.data());
        assert(self.chunk_data@ =~= old(self).chunk_data@ + packet@);
    }

    /// The state after the last chunk arrived.
    pub open spec fn took_chunk_tail(&self, after: &PacketSequencer, packet: &Packet) -> bool {
        &&& after.chunk_data@.len() == 0
        &&& after.ready() == self.ready().push(self.chunk_data@ + packet@)
        &&& after.next_process_id == self.next_process_id
        &&& after.next_reliable_gen_id == self.next_reliable_gen_id
        &&& after.reliable_sent@ == self.reliable_sent@
        &&& after.reliable_queue@ == self.reliable_queue@
    }

    /// Takes in the last chunk: the chunk buffer with it joins the ready
    /// payloads, and the buffer is empty again.
    pub fn handle_small_chunk_tail(&mut self, packet: &Packet)
        requires
            old(self).wf(),
            packet.wf(),
        ensures
            final(self).wf(),
            old(self).took_chunk_tail(final(self), packet),
    {
        self.chunk_data.extend_from_slice(packet.data());
        assert(self.chunk_data@ =~= old(self).chunk_data@ + packet@);
        self.release_chunk();
    }

    /// The state after a fragment of a huge chunk arrived.
    pub open spec fn took_huge_chunk(
        &self,
        after: &PacketSequencer,
        chunk: &HugeChunkMessage,
    ) -> bool {
        &&& after.next_process_id == self.next_process_id
        &&& after.next_reliable_gen_id == self.next_reliable_gen_id
        &&& after.reliable_sent@ == self.reliable_sent@
        &&& after.reliable_queue@ == self.reliable_queue@
        &&& self.chunk_data@.len() + chunk.data@.len() >= chunk.total_size ==> {
            &&& after.chunk_data@.len() == 0
            &&& after.ready() == self.ready().push(
                self.chunk_data@ + chunk.data@,
            )
        }
        &&& self.chunk_data@.len() + chunk.data@.len() < chunk.total_size ==> {
            &&& after.chunk_data@ == self.chunk_data@ + chunk.data@
            &&& after.ready() == self.ready()
        }
    }

    /// Takes in a fragment of a huge chunk: it joins the chunk buffer,
    /// and once the buffer holds the announced size it joins the ready
    /// payloads and the buffer is empty again.
    pub fn handle_huge_chunk(&mut self, chunk: &HugeChunkMessage)
        requires
            old(self).wf(),
            chunk.data.wf(),
        ensures
            final(self).wf(),
            old(self).took_huge_chunk(final(self), chunk),
    {
        self.chunk_data.extend_from_slice(chunk.data.data());
        assert(self.chunk_data@ =~= old(self).chunk_data@ + chunk.data@);
        if self.chunk_data.len() >= chunk.total_size as usize {
            self.release_chunk();
        }
    }

    /// The state after a huge chunk was cancelled.
    pub open spec fn took_cancel(&self, after: &PacketSequencer) -> bool {
        &&& after.chunk_data@.len() == 0
        &&& after.next_process_id == self.next_process_id
        &&& after.next_reliable_gen_id == self.next_reliable_gen_id
        &&& after.reliable_sent@ == self.reliable_sent@
        &&& after.reliable_queue@ == self.reliable_queue@
        &&& after.process_queue@ == self.process_queue@
    }

    /// Takes in the cancellation of a huge chunk: the chunk buffer is
    /// emptied.
    pub fn handle_huge_chunk_cancel(&mut self)
        requires
            old(self).wf(),
        ensures
            final(self).wf(),
            old(self).took_cancel(final(self)),
    {
        self.chunk_data.clear();
    }

    /// Moves on to the next id for outgoing reliable packets.
    pub fn increment_id(&mut self)
        ensures
            final(self).next_reliable_gen_id == next_id(
                old(self).next_reliable_gen_id,
            ),
            final(self).next_process_id == old(self).next_process_id,
            final(self).reliable_sent@ == old(self).reliable_sent@,
            final(self).reliable_queue@ == old(self).reliable_queue@,
            final(self).process_queue@ == old(self).process_queue@,
            final(self).chunk_data@ == old(self).chunk_data@,
    {
        self.next_reliable_gen_id = self.next_reliable_gen_id.wrapping_add(1);
    }

    fn release_chunk(&mut self)
        requires
            old(self).wf(),
        ensures
            final(self).wf(),
            final(self).chunk_data@.len() == 0,
            final(self).ready() == old(self).ready().push(old(self).chunk_data@),
            final(self).next_process_id == old(self).next_process_id,
            final(self).next_reliable_gen_id == old(self).next_reliable_gen_id,
            final(self).reliable_sent@ == old(self).reliable_sent@,
            final(self).reliable_queue@ == old(self).reliable_queue@,
    {
        let mut whole: Vec<u8> = Vec::new();
        core::mem::swap(&mut self.chunk_data, &mut whole);
        self.process_queue.push_back(whole);
    }
}

/// The id after `id`, wrapping from the largest to zero.
pub open spec fn next_id(id: u32) -> u32 {
    if id == u32::MAX {
        0
    } else {
        (id + 1) as u32
    }
}

/// The id `steps` after `id`, wrapping in 32 bits.
pub open spec fn id_plus(id: u32, steps: nat) -> u32 {
    ((id as int + steps as int) % 0x1_0000_0000) as u32
}

/// Whether a message with this id waits in `queue`.
pub open spec fn holds_id(queue: Seq<ReliableMessage>, id: u32) -> bool {
    exists|j: int| 0 <= j < queue.len() && (#[trigger] queue[j]).id == id
}

proof fn lemma_first_with_id_found(messages: Seq<ReliableMessage>, id: u32, from: nat)
    requires
        exists|j: int| from <= j < messages.len() && (#[trigger] messages[j]).id == id,
    ensures
        from <= first_with_id(messages, id, from) < messages.len(),
        messages[first_with_id(messages, id, from) as int].id == id,
    decreases messages.len() - from,
{
    if messages[from as int].id != id {
        let j = choose|j: int| from <= j < messages.len() && (#[trigger] messages[j]).id == id;
        lemma_first_with_id_found(messages, id, from + 1);
    }
}

proof fn lemma_swap_remove_keeps_others(queue: Seq<ReliableMessage>, at: int, id: u32)
    requires
        0 <= at < queue.len(),
        queue[at].id != id,
        holds_id(queue, id),
    ensures
        holds_id(swap_removed(queue, at), id),
{
    let j = choose|j: int| 0 <= j < queue.len() && (#[trigger] queue[j]).id == id;
    let after = swap_removed(queue, at);
    if j == queue.len() - 1 {
        assert(after[at].id == id);
    } else {
        assert(after[j].id == id);
    }
}

/// A message is retransmitted only if at least 300 ticks have passed
/// since its last transmission, as long as that transmission lies less
/// than a quarter of the tick circle away from now.
pub proof fn lemma_due_means_waited(sent_at: u32, now: u32)
    requires
        sent_at < 0x8000_0000,
        now < 0x8000_0000,
        -0x2000_0000 < tick_diff(now, sent_at) < 0x2000_0000,
    ensures
        is_due(sent_at, now) <==> tick_diff(now, sent_at) >= RESEND_DELAY,
{
}

/// The message chosen for retransmission is due, and nothing is chosen
/// only when nothing is due.
pub proof fn lemma_oldest_due_is_due(sent: Seq<ReliableMessage>, now: u32, n: nat)
    requires
        n <= sent.len(),
    ensures
        match oldest_due(sent, now, n) {
            Some(i) => 0 <= i < n && is_due(sent[i].timestamp.spec_value(), now),
            None => forall|j: int| 0 <= j < n ==> !is_due(
                (#[trigger] sent[j]).timestamp.spec_value(),
                now,
            ),
        },
    decreases n,
{
    if n > 0 {
        lemma_oldest_due_is_due(sent, now, (n - 1) as nat);
    }
}

/// A due message whose last transmission lies exactly half the tick
/// circle before the tick it is due by sits where the order of ticks
/// turns over; every other due message is told apart from it and from
/// all the others by their distances.
pub open spec fn due_within_reach(sent_at: u32, now: u32) -> bool {
    is_due(sent_at, now) ==> -0x4000_0000 < tick_diff(
        sent_at,
        tick_wrap(now as int - RESEND_DELAY as int),
    )
}

/// The distances of two ticks that lie less than half the circle before
/// `by` subtract like distances on a line.
proof fn lemma_distances_subtract(by: u32, a: u32, b: u32)
    requires
        by < 0x8000_0000,
        a < 0x8000_0000,
        b < 0x8000_0000,
        -0x4000_0000 < tick_diff(a, by) <= 0,
        -0x4000_0000 < tick_diff(b, by) <= 0,
    ensures
        tick_diff(a, b) == tick_diff(a, by) - tick_diff(b, by),
{
    let x = a as int - by as int;
    let y = b as int - by as int;
    let z = a as int - b as int;
    assert(x == 0x8000_0000 * (x / 0x8000_0000) + x % 0x8000_0000);
    assert(y == 0x8000_0000 * (y / 0x8000_0000) + y % 0x8000_0000);
    assert(z == 0x8000_0000 * (z / 0x8000_0000) + z % 0x8000_0000);
    assert(z == x - y);
}

/// Of the parked messages that are due, the one chosen for retransmission
/// was sent the longest ago, and of several sent at the same tick it is
/// the one parked first. This holds wherever the order of ticks can tell
/// the due messages apart: for all of them but one whose last
/// transmission lies exactly half the tick circle back.
pub proof fn lemma_oldest_due_is_oldest(sent: Seq<ReliableMessage>, now: u32, n: nat, j: int)
    requires
        n <= sent.len(),
        0 <= j < n,
        now < 0x8000_0000,
        forall|i: int| 0 <= i < n ==> (#[trigger] sent[i]).timestamp.wf(),
        forall|i: int|
            0 <= i < n ==> due_within_reach((#[trigger] sent[i]).timestamp.spec_value(), now),
        is_due(sent[j].timestamp.spec_value(), now),
    ensures
        oldest_due(sent, now, n) matches Some(i) && 0 <= i < n && tick_diff(
            sent[j].timestamp.spec_value(),
            sent[i].timestamp.spec_value(),
        ) >= 0 && (tick_diff(sent[j].timestamp.spec_value(), sent[i].timestamp.spec_value()) == 0
            ==> i <= j),
    decreases n,
{
    let by = tick_wrap(now as int - RESEND_DELAY as int);
    lemma_oldest_due_is_due(sent, now, (n - 1) as nat);
    lemma_oldest_due_is_due(sent, now, n);
    let last = n - 1;
    let before = oldest_due(sent, now, (n - 1) as nat);
    let at_last = sent[last].timestamp.spec_value();
    let at_j = sent[j].timestamp.spec_value();
    if j < last {
        lemma_oldest_due_is_oldest(sent, now, (n - 1) as nat, j);
        let b = before->Some_0;
        let at_b = sent[b].timestamp.spec_value();
        assert(due_within_reach(sent[b].timestamp.spec_value(), now));
        lemma_distances_subtract(by, at_j, at_b);
        if is_due(at_last, now) {
            lemma_distances_subtract(by, at_last, at_b);
            lemma_distances_subtract(by, at_j, at_last);
        }
    } else {
        match before {
            Some(b) => {
                assert(due_within_reach(sent[b].timestamp.spec_value(), now));
                lemma_distances_subtract(by, at_last, sent[b].timestamp.spec_value());
            },
            None => {},
        }
        lemma_distances_subtract(by, at_last, at_last);
    }
}

proof fn lemma_id_plus(first: u32, i: nat, j: nat)
    requires
        i < j,
        j - i < 0x1_0000_0000,
    ensures
        id_plus(first, i) != id_plus(first, j),
        next_id(id_plus(first, i)) == id_plus(first, i + 1),
{
    let a = first as int + i as int;
    let b = first as int + j as int;
    if a % 0x1_0000_0000 == b % 0x1_0000_0000 {
        assert(a == 0x1_0000_0000 * (a / 0x1_0000_0000) + a % 0x1_0000_0000);
        assert(b == 0x1_0000_0000 * (b / 0x1_0000_0000) + b % 0x1_0000_0000);
        assert(b - a == 0x1_0000_0000 * (b / 0x1_0000_0000 - a / 0x1_0000_0000));
    }
}

proof fn lemma_delivery_step(
    before: PacketSequencer,
    after: PacketSequencer,
    first: u32,
    n: nat,
    k: nat,
)
    requires
        n <= 0x1_0000_0000,
        k + 1 < n,
        before.delivered_to(&after),
        before.ready().len() == 0,
        before.next_process_id == id_plus(first, k),
        forall|i: nat| k <= i < n ==> holds_id(before.reliable_queue@, #[trigger] id_plus(first, i)),
    ensures
        after.ready().len() == 0,
        after.next_process_id == id_plus(first, k + 1),
        forall|i: nat|
            k + 1 <= i < n ==> holds_id(after.reliable_queue@, #[trigger] id_plus(first, i)),
{
    let turn = id_plus(first, k);
    lemma_first_with_id_found(before.reliable_queue@, turn, 0);
    let at = first_with_id(before.reliable_queue@, turn, 0) as int;
    lemma_id_plus(first, k, k + 1);
    assert forall|i: nat| k + 1 <= i < n implies holds_id(
        after.reliable_queue@,
        #[trigger] id_plus(first, i),
    ) by {
        lemma_id_plus(first, k, i);
        lemma_swap_remove_keeps_others(before.reliable_queue@, at, id_plus(first, i));
    }
}

/// While ready payloads are out of the way and the waiting messages hold
/// the `n` ids that follow the last one processed, in whatever order
/// they arrived, `n` deliveries in a row hand out exactly those ids in
/// ascending order.
pub proof fn lemma_in_order_delivery(states: Seq<PacketSequencer>, n: nat, k: nat)
    requires
        states.len() == n + 1,
        n <= 0x1_0000_0000,
        k < n,
        forall|t: int| 0 <= t < n ==> (#[trigger] states[t]).delivered_to(&states[t + 1]),
        states[0].ready().len() == 0,
        forall|i: nat|
            i < n ==> holds_id(
                states[0].reliable_queue@,
                #[trigger] id_plus(states[0].next_process_id, i),
            ),
    ensures
        states[k as int].ready().len() == 0,
        states[k as int].next_process_id == id_plus(states[0].next_process_id, k),
        forall|i: nat|
            k <= i < n ==> holds_id(
                states[k as int].reliable_queue@,
                #[trigger] id_plus(states[0].next_process_id, i),
            ),
        states[k as int].next_delivery() matches Delivery::Reliable(id, _) && id == id_plus(
            states[0].next_process_id,
            k,
        ),
    decreases k,
{
    let first = states[0].next_process_id;
    if k > 0 {
        lemma_in_order_delivery(states, n, (k - 1) as nat);
        lemma_delivery_step(states[k - 1], states[k as int], first, n, (k - 1) as nat);
    }
    let here = states[k as int];
    lemma_first_with_id_found(here.reliable_queue@, id_plus(first, k), 0);
}

/// The payloads of the first `n` fragments, put end to end.
pub open spec fn joined(fragments: Seq<HugeChunkMessage>, n: nat) -> Seq<u8>
    decreases n,
{
    if n == 0 {
        Seq::empty()
    } else {
        joined(fragments, (n - 1) as nat) + fragments[n - 1].data@
    }
}

/// A huge chunk is released exactly once, when its fragments first reach
/// the size that they announce: while the fragments taken in so far fall
/// short of it, nothing becomes ready and they gather in the chunk
/// buffer; the fragment that reaches it makes the whole chunk ready and
/// leaves the buffer empty.
pub proof fn lemma_huge_chunk_released_once(
    states: Seq<PacketSequencer>,
    fragments: Seq<HugeChunkMessage>,
    size: u32,
    k: nat,
)
    requires
        states.len() == fragments.len() + 1,
        states[0].chunk_data@.len() == 0,
        forall|i: int|
            0 <= i < fragments.len() ==> (#[trigger] states[i]).took_huge_chunk(
                &states[i + 1],
                &fragments[i],
            ),
        forall|i: int| 0 <= i < fragments.len() ==> (#[trigger] fragments[i]).total_size == size,
        forall|n: nat| n < fragments.len() ==> (#[trigger] joined(fragments, n)).len() < size,
        joined(fragments, fragments.len()).len() >= size,
        k <= fragments.len(),
    ensures
        k < fragments.len() ==> {
            &&& states[k as int].ready() == states[0].ready()
            &&& states[k as int].chunk_data@ == joined(fragments, k)
        },
        k == fragments.len() && k > 0 ==> {
            &&& states[k as int].ready() == states[0].ready().push(joined(fragments, k))
            &&& states[k as int].chunk_data@.len() == 0
        },
    decreases k,
{
    if k > 0 {
        lemma_huge_chunk_released_once(states, fragments, size, (k - 1) as nat);
        let before = states[k - 1];
        assert(joined(fragments, k) == before.chunk_data@ + fragments[k - 1].data@);
    }
}

proof fn lemma_first_with_id(messages: Seq<ReliableMessage>, id: u32, from: nat, found: nat)
    requires
        from <= found <= messages.len(),
        forall|j: int| from <= j < found ==> messages[j].id != id,
        found < messages.len() ==> messages[found as int].id == id,
    ensures
        first_with_id(messages, id, from) == found,
    decreases found - from,
{
    if from < found {
        lemma_first_with_id(messages, id, from + 1, found);
    }
}

} // verus!

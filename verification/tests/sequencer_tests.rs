use subspace_client::clock::LocalTick;
use subspace_client::error::{DecodeError, MessageKind};
use subspace_client::net::packet::bi::{ClusterMessage, HugeChunkMessage};
use subspace_client::net::packet::s2c::{GameServerMessage, ServerMessage};
use subspace_client::net::packet::sequencer::{PacketSequencer, ReliableMessage};
use subspace_client::net::packet::Packet;

fn ready(seq: &PacketSequencer) -> Vec<Vec<u8>> {
    seq.process_queue.iter().cloned().collect()
}

#[test]
fn new_sequencer_is_empty() {
    let mut seq = PacketSequencer::new();
    assert_eq!(seq.next_process_id, 0);
    assert_eq!(seq.next_reliable_gen_id, 0);
    assert!(seq.reliable_sent.is_empty());
    assert!(seq.reliable_queue.is_empty());
    assert!(seq.process_queue.is_empty());
    assert!(seq.chunk_data.is_empty());
    assert!(matches!(seq.pop_process_queue(), Ok(None)));
    assert!(seq.tick().is_none());
}

#[test]
fn reliable_message_keeps_its_bytes() {
    let m = ReliableMessage::new_at(7, &[1, 2, 3], LocalTick::new(55));
    assert_eq!(m.id, 7);
    assert_eq!(m.size, 3);
    assert_eq!(&m.message[..3], &[1, 2, 3]);
    assert_eq!(m.timestamp.value(), 55);
    let n = ReliableMessage::new(8, &[9]);
    assert_eq!((n.id, n.size, n.message[0]), (8, 1, 9));
}

#[test]
fn increment_id_wraps() {
    let mut seq = PacketSequencer::new();
    seq.increment_id();
    assert_eq!(seq.next_reliable_gen_id, 1);
    seq.next_reliable_gen_id = u32::MAX;
    seq.increment_id();
    assert_eq!(seq.next_reliable_gen_id, 0);
}

#[test]
fn reliable_messages_are_delivered_in_order_of_id() {
    let mut seq = PacketSequencer::new();
    // ids 3, 1, 0, 2 arrive; each carries the game message 0x02 + its id
    for id in [3u32, 1, 0, 2] {
        // PlayerLeaving (0x04) with the id as player id
        seq.handle_reliable_message(id, &Packet::new(&[0x04, id as u8, 0]));
    }
    for expected in 0..4u16 {
        match seq.pop_process_queue() {
            Ok(Some(ServerMessage::Game(GameServerMessage::PlayerLeaving(m)))) => {
                assert_eq!(m.player_id, expected)
            }
            _ => panic!("expected a leaving player"),
        }
        assert_eq!(seq.next_process_id, expected as u32 + 1);
    }
    assert!(matches!(seq.pop_process_queue(), Ok(None)));
    assert!(seq.reliable_queue.is_empty());
}

#[test]
fn a_gap_holds_delivery_back() {
    let mut seq = PacketSequencer::new();
    seq.handle_reliable_message(1, &Packet::new(&[0x02]));
    assert!(matches!(seq.pop_process_queue(), Ok(None)));
    assert_eq!(seq.next_process_id, 0);
    assert_eq!(seq.reliable_queue.len(), 1);
    seq.handle_reliable_message(0, &Packet::new(&[0x27]));
    assert!(matches!(
        seq.pop_process_queue(),
        Ok(Some(ServerMessage::Game(GameServerMessage::KeepAlive)))
    ));
    assert!(matches!(
        seq.pop_process_queue(),
        Ok(Some(ServerMessage::Game(GameServerMessage::InGame)))
    ));
}

#[test]
fn a_duplicate_is_delivered_once() {
    let mut seq = PacketSequencer::new();
    seq.handle_reliable_message(0, &Packet::new(&[0x02]));
    seq.handle_reliable_message(0, &Packet::new(&[0x02]));
    assert!(matches!(seq.pop_process_queue(), Ok(Some(_))));
    assert!(matches!(seq.pop_process_queue(), Ok(None)));
    assert_eq!(seq.next_process_id, 1);
    // a late duplicate of a delivered id is never handed out
    seq.handle_reliable_message(0, &Packet::new(&[0x02]));
    assert!(matches!(seq.pop_process_queue(), Ok(None)));
}

#[test]
fn process_id_wraps() {
    let mut seq = PacketSequencer::new();
    seq.next_process_id = u32::MAX;
    seq.handle_reliable_message(u32::MAX, &Packet::new(&[0x02]));
    assert!(matches!(seq.pop_process_queue(), Ok(Some(_))));
    assert_eq!(seq.next_process_id, 0);
}

#[test]
fn decode_errors_come_through_delivery() {
    let mut seq = PacketSequencer::new();
    seq.handle_reliable_message(0, &Packet::new(&[0xBB]));
    assert_eq!(
        seq.pop_process_queue().err(),
        Some(DecodeError::InvalidEnum(MessageKind::Game(0xBB)))
    );
    assert_eq!(seq.next_process_id, 1);
}

#[test]
fn cluster_is_unpacked_in_order() {
    let mut seq = PacketSequencer::new();
    let cluster = ClusterMessage { data: Packet::new(&[1, 0x02, 2, 0x1E, 0x01]) };
    seq.handle_cluster(&cluster);
    assert_eq!(ready(&seq), vec![vec![0x02], vec![0x1E, 0x01]]);
    assert!(matches!(
        seq.pop_process_queue(),
        Ok(Some(ServerMessage::Game(GameServerMessage::InGame)))
    ));
    match seq.pop_process_queue() {
        Ok(Some(ServerMessage::Game(GameServerMessage::SelfBannerChanged(m)))) => {
            assert!(m.enabled)
        }
        _ => panic!("expected a banner change"),
    }
    assert!(matches!(seq.pop_process_queue(), Ok(None)));
}

#[test]
fn cluster_with_a_cut_subpacket() {
    let mut seq = PacketSequencer::new();
    let cluster = ClusterMessage { data: Packet::new(&[2, 7, 8, 0, 5, 1, 2]) };
    seq.handle_cluster(&cluster);
    // the empty subpacket is taken, the one that claims five bytes is not
    assert_eq!(ready(&seq), vec![vec![7, 8], vec![]]);
    let empty = ClusterMessage { data: Packet::empty() };
    seq.handle_cluster(&empty);
    assert_eq!(seq.process_queue.len(), 2);
}

#[test]
fn ready_payloads_come_before_reliable_ones() {
    let mut seq = PacketSequencer::new();
    seq.handle_reliable_message(0, &Packet::new(&[0x27]));
    seq.handle_cluster(&ClusterMessage { data: Packet::new(&[1, 0x02]) });
    assert!(matches!(
        seq.pop_process_queue(),
        Ok(Some(ServerMessage::Game(GameServerMessage::InGame)))
    ));
    assert_eq!(seq.next_process_id, 0);
    assert!(matches!(
        seq.pop_process_queue(),
        Ok(Some(ServerMessage::Game(GameServerMessage::KeepAlive)))
    ));
    assert_eq!(seq.next_process_id, 1);
}

#[test]
fn small_chunks_are_put_together() {
    let mut seq = PacketSequencer::new();
    seq.handle_small_chunk_body(&Packet::new(&[1, 2, 3]));
    assert_eq!(seq.chunk_data, vec![1, 2, 3]);
    assert!(seq.process_queue.is_empty());
    seq.handle_small_chunk_tail(&Packet::new(&[4, 5]));
    assert!(seq.chunk_data.is_empty());
    assert_eq!(ready(&seq), vec![vec![1, 2, 3, 4, 5]]);
    match seq.pop_process_queue() {
        Ok(Some(ServerMessage::Game(GameServerMessage::PlayerId(m)))) => {
            assert_eq!(m.id, 0x0302)
        }
        _ => panic!("expected a player id"),
    }
}

#[test]
fn a_tail_alone_is_a_whole_payload() {
    let mut seq = PacketSequencer::new();
    seq.handle_small_chunk_tail(&Packet::new(&[0x02]));
    assert_eq!(ready(&seq), vec![vec![0x02]]);
}

#[test]
fn huge_chunk_is_released_once_when_complete() {
    let mut seq = PacketSequencer::new();
    seq.handle_huge_chunk(&HugeChunkMessage { total_size: 5, data: Packet::new(&[1, 2, 3]) });
    assert!(seq.process_queue.is_empty());
    assert_eq!(seq.chunk_data.len(), 3);
    seq.handle_huge_chunk(&HugeChunkMessage { total_size: 5, data: Packet::new(&[4, 5]) });
    assert_eq!(ready(&seq), vec![vec![1, 2, 3, 4, 5]]);
    assert!(seq.chunk_data.is_empty());
    // the next fragment starts a new chunk
    seq.handle_huge_chunk(&HugeChunkMessage { total_size: 5, data: Packet::new(&[6]) });
    assert_eq!(seq.process_queue.len(), 1);
    assert_eq!(seq.chunk_data, vec![6]);
}

#[test]
fn huge_chunk_that_overshoots_is_released_whole() {
    let mut seq = PacketSequencer::new();
    seq.handle_huge_chunk(&HugeChunkMessage { total_size: 2, data: Packet::new(&[1, 2, 3]) });
    assert_eq!(ready(&seq), vec![vec![1, 2, 3]]);
    seq.handle_huge_chunk(&HugeChunkMessage { total_size: 0, data: Packet::empty() });
    assert_eq!(seq.process_queue.len(), 2);
}

#[test]
fn huge_chunk_cancel_empties_the_buffer() {
    let mut seq = PacketSequencer::new();
    seq.handle_huge_chunk(&HugeChunkMessage { total_size: 9, data: Packet::new(&[1, 2, 3]) });
    seq.handle_huge_chunk_cancel();
    assert!(seq.chunk_data.is_empty());
    assert!(seq.process_queue.is_empty());
}

#[test]
fn parked_message_is_resent_after_300_ticks() {
    let mut seq = PacketSequencer::new();
    seq.push_reliable_sent_at(0, &[0, 3, 0, 0, 0, 0, 9], LocalTick::new(1000));
    assert!(seq.tick_at(LocalTick::new(1000)).is_none());
    assert!(seq.tick_at(LocalTick::new(1299)).is_none());
    let again = seq.tick_at(LocalTick::new(1300)).expect("due");
    assert_eq!(again.data(), &[0, 3, 0, 0, 0, 0, 9]);
    assert_eq!(seq.reliable_sent[0].timestamp.value(), 1300);
    assert!(seq.tick_at(LocalTick::new(1599)).is_none());
    assert!(seq.tick_at(LocalTick::new(1600)).is_some());
    assert_eq!(seq.reliable_sent.len(), 1);
}

#[test]
fn the_oldest_due_message_goes_first() {
    let mut seq = PacketSequencer::new();
    seq.push_reliable_sent_at(5, &[5], LocalTick::new(200));
    seq.push_reliable_sent_at(6, &[6], LocalTick::new(100));
    seq.push_reliable_sent_at(7, &[7], LocalTick::new(100));
    seq.push_reliable_sent_at(8, &[8], LocalTick::new(900));
    let now = LocalTick::new(1000);
    assert_eq!(seq.tick_at(now).unwrap().data(), &[6]);
    assert_eq!(seq.tick_at(now).unwrap().data(), &[7]);
    assert_eq!(seq.tick_at(now).unwrap().data(), &[5]);
    assert!(seq.tick_at(now).is_none());
}

#[test]
fn resend_across_the_wrap() {
    let mut seq = PacketSequencer::new();
    seq.push_reliable_sent_at(1, &[1], LocalTick::new(0x7FFF_FFF0));
    assert!(seq.tick_at(LocalTick::new(0x7FFF_FFFF)).is_none());
    assert!(seq.tick_at(LocalTick::new(283)).is_none());
    assert!(seq.tick_at(LocalTick::new(284)).is_some());
}

#[test]
fn ack_removes_the_parked_message() {
    let mut seq = PacketSequencer::new();
    seq.push_reliable_sent_at(0, &[10], LocalTick::new(0));
    seq.push_reliable_sent_at(1, &[11], LocalTick::new(0));
    seq.push_reliable_sent_at(2, &[12], LocalTick::new(0));
    seq.handle_ack(0);
    let ids: Vec<u32> = seq.reliable_sent.iter().map(|m| m.id).collect();
    assert_eq!(ids, vec![2, 1]);
    seq.handle_ack(9);
    assert_eq!(seq.reliable_sent.len(), 2);
    seq.handle_ack(1);
    seq.handle_ack(2);
    assert!(seq.reliable_sent.is_empty());
    assert!(seq.tick_at(LocalTick::new(5000)).is_none());
}

#[test]
fn push_reliable_sent_parks_at_the_end() {
    let mut seq = PacketSequencer::new();
    seq.push_reliable_sent(4, &[1, 2]);
    seq.push_reliable_sent(5, &[3]);
    assert_eq!(seq.reliable_sent.len(), 2);
    assert_eq!(seq.reliable_sent[1].id, 5);
    assert_eq!(&seq.reliable_sent[0].message[..2], &[1, 2]);
}

#[test]
fn reliable_message_is_zero_behind_its_bytes() {
    let m = ReliableMessage::new_at(1, &[9, 9, 9], LocalTick::new(0));
    assert!(m.message[3..].iter().all(|b| *b == 0));
    let full = ReliableMessage::new_at(2, &[1u8; 520], LocalTick::new(0));
    assert_eq!(full.size, 520);
}

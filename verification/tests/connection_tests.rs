use subspace_client::clock::{LocalTick, ServerTick};
use subspace_client::error::{DecodeError, MessageKind};
use subspace_client::net::connection::{
    compute_sync_offset, Connection, ConnectionState, SendError,
};
use subspace_client::net::packet::bi::DisconnectMessage;
use subspace_client::net::packet::c2s::{MapRequestMessage, SendVoiceMessage};
use subspace_client::net::packet::s2c::{CoreServerMessage, GameServerMessage, ServerMessage};
use subspace_client::net::packet::Packet;
use subspace_client::player::PlayerId;

const SERVER_KEY: u32 = 0x8765_4321;
const CLIENT_KEY: u32 = 0x789A_BCDF;

fn at(tick: u32) -> LocalTick {
    LocalTick::new(tick)
}

#[test]
fn encryption_handshake_with_identity_key() {
    let (mut conn, request) = Connection::with_key(0);
    assert_eq!(request.data(), &[0x00, 0x01, 0x00, 0x00, 0x00, 0x00, 0x01, 0x00]);
    assert_eq!(conn.state, ConnectionState::EncryptionHandshake);
    let (message, replies) = conn.receive(&[0x00, 0x02, 0x00, 0x00, 0x00, 0x00], at(1));
    assert!(replies.is_empty());
    match message {
        Ok(Some(ServerMessage::Core(CoreServerMessage::EncryptionResponse(m)))) => {
            assert_eq!(m.key, 0)
        }
        _ => panic!("expected an encryption response"),
    }
    assert_eq!(conn.crypt.session_key, 0);
    assert_eq!(conn.state, ConnectionState::Authentication);
}

#[test]
fn new_connection_asks_for_encryption() {
    let (conn, request) = Connection::new();
    let key = conn.crypt.client_key;
    assert!(key == 0 || key >= 0x8000_0000);
    assert_eq!(&request.data()[..2], &[0x00, 0x01]);
    assert_eq!(&request.data()[2..6], &key.to_le_bytes());
    assert_eq!(&request.data()[6..], &[0x01, 0x00]);
    assert_eq!(conn.state, ConnectionState::EncryptionHandshake);
    assert_eq!(conn.tick_diff, 0);
    assert!(conn.player_id == PlayerId::invalid());
}

#[test]
fn negated_key_enables_the_cipher() {
    let (mut conn, _) = Connection::with_key(CLIENT_KEY);
    let (message, _) = conn.receive(&[0x00, 0x02, 0x21, 0x43, 0x65, 0x87], at(1));
    assert!(matches!(message, Ok(Some(_))));
    assert_eq!(conn.crypt.session_key, SERVER_KEY);
    assert_eq!(conn.state, ConnectionState::Authentication);
    // outgoing packets are now enciphered
    let sealed = conn.send_packet(&Packet::new(&[0x03, 1, 2, 3, 4, 5, 6, 7, 8, 9, 10])).unwrap();
    assert_eq!(sealed.data(), &[3, 6, 175, 150, 134, 206, 123, 83, 75, 39, 18]);
    // and incoming ones deciphered: 0x27 is the keepalive
    let (message, _) = conn.receive(&[0x27], at(2));
    assert!(matches!(message, Ok(Some(ServerMessage::Game(GameServerMessage::KeepAlive)))));
}

#[test]
fn invalid_key_disconnects() {
    let (mut conn, _) = Connection::with_key(CLIENT_KEY);
    let (message, replies) = conn.receive(&[0x00, 0x02, 1, 2, 3, 4], at(1));
    assert!(matches!(message, Ok(Some(_))));
    assert!(replies.is_empty());
    assert_eq!(conn.state, ConnectionState::Disconnected);
    assert_eq!(conn.crypt.session_key, 0);
}

#[test]
fn reliable_data_is_acknowledged_and_delivered_in_order() {
    let (mut conn, _) = Connection::with_key(0);
    let (first, acks) = conn.receive(&[0x00, 0x03, 0x01, 0x00, 0x00, 0x00, 0xAA], at(5));
    assert!(matches!(first, Ok(Some(ServerMessage::Core(CoreServerMessage::ReliableData(_))))));
    assert_eq!(acks.len(), 1);
    assert_eq!(acks[0].data(), &[0x00, 0x04, 0x01, 0x00, 0x00, 0x00]);
    let (_, acks) = conn.receive(&[0x00, 0x03, 0x00, 0x00, 0x00, 0x00, 0xBB], at(5));
    assert_eq!(acks.len(), 1);
    assert_eq!(acks[0].data(), &[0x00, 0x04, 0x00, 0x00, 0x00, 0x00]);
    // the payloads come out by id: BB, then AA
    let (first, _) = conn.poll(at(6));
    assert_eq!(first.err(), Some(DecodeError::InvalidEnum(MessageKind::Game(0xBB))));
    let (second, _) = conn.poll(at(6));
    assert_eq!(second.err(), Some(DecodeError::InvalidEnum(MessageKind::Game(0xAA))));
    let (third, _) = conn.poll(at(6));
    assert!(matches!(third, Ok(None)));
}

#[test]
fn duplicates_are_acknowledged_too() {
    let (mut conn, _) = Connection::with_key(0);
    for _ in 0..3 {
        let (_, acks) = conn.receive(&[0x00, 0x03, 0x00, 0x00, 0x00, 0x00, 0x02], at(5));
        assert_eq!(acks.len(), 1);
        assert_eq!(acks[0].data(), &[0x00, 0x04, 0x00, 0x00, 0x00, 0x00]);
    }
    assert!(matches!(conn.poll(at(6)).0, Ok(Some(_))));
    assert!(matches!(conn.poll(at(6)).0, Ok(None)));
}

#[test]
fn cluster_through_the_connection() {
    let (mut conn, _) = Connection::with_key(0);
    let (message, replies) = conn.receive(&[0x00, 0x0E, 0x01, 0x02, 0x02, 0x1E, 0x00], at(1));
    assert!(matches!(message, Ok(Some(ServerMessage::Core(CoreServerMessage::Cluster(_))))));
    assert!(replies.is_empty());
    assert!(matches!(
        conn.poll(at(1)).0,
        Ok(Some(ServerMessage::Game(GameServerMessage::InGame)))
    ));
    assert!(matches!(
        conn.poll(at(1)).0,
        Ok(Some(ServerMessage::Game(GameServerMessage::SelfBannerChanged(_))))
    ));
    assert!(matches!(conn.poll(at(1)).0, Ok(None)));
}

#[test]
fn small_chunks_through_the_connection() {
    let (mut conn, _) = Connection::with_key(0);
    conn.receive(&[0x00, 0x08, 0x01, 0x02, 0x03], at(1));
    assert!(matches!(conn.poll(at(1)).0, Ok(None)));
    conn.receive(&[0x00, 0x09, 0x04, 0x05], at(1));
    match conn.poll(at(1)).0 {
        Ok(Some(ServerMessage::Game(GameServerMessage::PlayerId(m)))) => {
            assert_eq!(m.id, 0x0302)
        }
        _ => panic!("expected a player id"),
    }
    // the player id message names this client
    assert_eq!(conn.player_id.value, 0x0302);
}

#[test]
fn huge_chunk_cancel_is_acknowledged() {
    let (mut conn, _) = Connection::with_key(0);
    conn.receive(&[0x00, 0x0A, 9, 0, 0, 0, 1, 2, 3], at(1));
    assert_eq!(conn.sequencer.chunk_data, vec![1, 2, 3]);
    let (_, replies) = conn.receive(&[0x00, 0x0B], at(1));
    assert_eq!(replies.len(), 1);
    assert_eq!(replies[0].data(), &[0x00, 0x0C]);
    assert!(conn.sequencer.chunk_data.is_empty());
    let (_, replies) = conn.receive(&[0x00, 0x0C], at(1));
    assert!(replies.is_empty());
}

#[test]
fn sync_offset_formula() {
    assert_eq!(compute_sync_offset(at(10_020), at(10_000), ServerTick::new(50_000, 0)), 39_992);
    // three fifths of the round trip, rounded toward zero
    assert_eq!(compute_sync_offset(at(107), at(100), ServerTick::new(107, 0)), 4);
    assert_eq!(compute_sync_offset(at(100), at(107), ServerTick::new(100, 0)), -4);
    assert_eq!(compute_sync_offset(at(50), at(50), ServerTick::new(20, 0)), -30);
}

#[test]
fn sync_response_sets_the_offset() {
    let (mut conn, _) = Connection::with_key(0);
    let mut packet = vec![0x00, 0x06];
    packet.extend(10_000u32.to_le_bytes());
    packet.extend(50_000u32.to_le_bytes());
    let (message, replies) = conn.receive(&packet, at(10_020));
    assert!(matches!(message, Ok(Some(ServerMessage::Core(CoreServerMessage::SyncResponse(_))))));
    assert!(replies.is_empty());
    assert_eq!(conn.tick_diff, 39_992);
    assert_eq!(conn.server_tick_at(at(10_020)).value(), 50_012);
    assert!(conn.get_server_tick().value() < 0x8000_0000);
}

#[test]
fn disconnect_order_disconnects() {
    let (mut conn, _) = Connection::with_key(0);
    conn.receive(&[0x00, 0x07], at(1));
    assert_eq!(conn.state, ConnectionState::Disconnected);
}

#[test]
fn undecodable_datagram_changes_nothing() {
    let (mut conn, _) = Connection::with_key(0);
    let (message, replies) = conn.receive(&[0x00, 0x05, 0, 0, 0, 0], at(1));
    assert_eq!(message.err(), Some(DecodeError::InvalidEnum(MessageKind::Core(0x05))));
    assert!(replies.is_empty());
    let (message, _) = conn.receive(&[], at(1));
    assert_eq!(message.err(), Some(DecodeError::TooShort(MessageKind::Unknown)));
    assert_eq!(conn.state, ConnectionState::EncryptionHandshake);
}

#[test]
fn empty_packet_is_not_sent() {
    let (mut conn, _) = Connection::with_key(0);
    assert_eq!(conn.send_packet(&Packet::empty()).err(), Some(SendError::Empty));
    assert_eq!(conn.send_reliable_packet(&Packet::empty(), at(1)).err(), Some(SendError::Empty));
    assert_eq!(conn.send_reliable_data(&[], at(1)).err(), Some(SendError::Empty));
    assert_eq!(conn.sequencer.next_reliable_gen_id, 0);
}

#[test]
fn send_lays_out_and_seals() {
    let (mut conn, _) = Connection::with_key(0);
    let sent = conn.send(&DisconnectMessage {}).unwrap();
    assert_eq!(sent.data(), &[0x00, 0x07]);
}

#[test]
fn reliable_send_frames_and_parks() {
    let (mut conn, _) = Connection::with_key(0);
    let sent = conn.send_reliable(&MapRequestMessage {}, at(77)).unwrap();
    assert_eq!(sent.data(), &[0x00, 0x03, 0, 0, 0, 0, 0x0C]);
    let sent = conn.send_reliable_packet(&Packet::new(&[1, 2]), at(78)).unwrap();
    assert_eq!(sent.data(), &[0x00, 0x03, 1, 0, 0, 0, 1, 2]);
    assert_eq!(conn.sequencer.next_reliable_gen_id, 2);
    assert_eq!(conn.sequencer.reliable_sent.len(), 2);
    assert_eq!(conn.sequencer.reliable_sent[1].id, 1);
    assert_eq!(conn.sequencer.reliable_sent[1].timestamp.value(), 78);
    assert_eq!(&conn.sequencer.reliable_sent[1].message[..8], &[0x00, 0x03, 1, 0, 0, 0, 1, 2]);
}

#[test]
fn reliable_payload_too_large_for_one_packet() {
    let (mut conn, _) = Connection::with_key(0);
    assert_eq!(
        conn.send_reliable_packet(&Packet::new(&[1u8; 515]), at(1)).err(),
        Some(SendError::TooLarge)
    );
    assert!(conn.send_reliable_packet(&Packet::new(&[1u8; 514]), at(1)).is_ok());
    let voice = SendVoiceMessage { index: 0, player_id: PlayerId::new(1), data: vec![0; 516] };
    assert_eq!(conn.send_reliable(&voice, at(1)).err(), Some(SendError::TooLarge));
}

#[test]
fn largest_single_reliable_payload_fills_a_packet() {
    let (mut conn, _) = Connection::with_key(0);
    let payload = [0x55u8; 514];
    let sent = conn.send_reliable_data(&payload, at(1)).unwrap();
    assert_eq!(sent.len(), 1);
    assert_eq!(sent[0].size, 520);
    assert_eq!(&sent[0].data()[..6], &[0x00, 0x03, 0, 0, 0, 0]);
    assert_eq!(&sent[0].data()[6..], &payload[..]);
}

#[test]
fn payload_of_519_bytes_is_chunked() {
    let (mut conn, _) = Connection::with_key(0);
    let payload: Vec<u8> = (0..519).map(|i| i as u8).collect();
    let sent = conn.send_reliable_data(&payload, at(1)).unwrap();
    assert_eq!(sent.len(), 2);
    assert_eq!(sent[0].size, 520);
    assert_eq!(&sent[0].data()[..8], &[0x00, 0x03, 0, 0, 0, 0, 0x00, 0x08]);
    assert_eq!(&sent[0].data()[8..], &payload[..512]);
    assert_eq!(sent[1].size, 15);
    assert_eq!(&sent[1].data()[..8], &[0x00, 0x03, 1, 0, 0, 0, 0x00, 0x09]);
    assert_eq!(&sent[1].data()[8..], &payload[512..]);
}

#[test]
fn payload_of_521_bytes_yields_body_and_tail() {
    let (mut conn, _) = Connection::with_key(0);
    let payload: Vec<u8> = (0..521).map(|i| (i % 251) as u8).collect();
    let sent = conn.send_reliable_data(&payload, at(9)).unwrap();
    assert_eq!(sent.len(), 2);
    assert_eq!(sent[0].data()[7], 0x08);
    assert_eq!(sent[1].data()[7], 0x09);
    assert_eq!(sent[0].size, 520);
    assert_eq!(sent[1].size, 6 + 2 + 9);
    assert_eq!(conn.sequencer.next_reliable_gen_id, 2);
    assert_eq!(conn.sequencer.reliable_sent.len(), 2);
    // the receiver puts the pieces together again
    let mut seq = subspace_client::net::packet::sequencer::PacketSequencer::new();
    seq.handle_small_chunk_body(&Packet::new(&sent[0].data()[8..]));
    seq.handle_small_chunk_tail(&Packet::new(&sent[1].data()[8..]));
    assert_eq!(seq.process_queue[0], payload);
}

#[test]
fn long_payload_is_cut_in_chunks_of_512() {
    let (mut conn, _) = Connection::with_key(0);
    let payload = vec![7u8; 1024];
    let sent = conn.send_reliable_data(&payload, at(1)).unwrap();
    assert_eq!(sent.len(), 2);
    assert_eq!(sent[1].size, 520);
    assert_eq!(sent[1].data()[7], 0x09);
    let sent = conn.send_reliable_data(&vec![7u8; 1025], at(1)).unwrap();
    assert_eq!(sent.len(), 3);
    assert_eq!(sent[2].size, 9);
    assert_eq!(&sent[2].data()[..8], &[0x00, 0x03, 4, 0, 0, 0, 0x00, 0x09]);
}

#[test]
fn retransmission_after_300_ticks_until_acknowledged() {
    let (mut conn, _) = Connection::with_key(0);
    let sent = conn.send_reliable_packet(&Packet::new(&[0x0C]), at(1000)).unwrap();
    assert!(conn.retransmit(at(1299)).is_none());
    let again = conn.retransmit(at(1300)).expect("due");
    assert_eq!(again.data(), sent.data());
    assert!(conn.retransmit(at(1301)).is_none());
    // the acknowledgement ends it
    conn.receive(&[0x00, 0x04, 0, 0, 0, 0], at(1302));
    assert!(conn.sequencer.reliable_sent.is_empty());
    assert!(conn.retransmit(at(5000)).is_none());
}

#[test]
fn tick_resends_then_takes_the_datagram() {
    let (mut conn, _) = Connection::with_key(0);
    conn.send_reliable_packet(&Packet::new(&[0x0C]), at(0)).unwrap();
    let datagram = [0x00u8, 0x03, 0, 0, 0, 0, 0x02];
    let (outgoing, message) = conn.tick(Some(&datagram), at(300));
    assert_eq!(outgoing.len(), 2);
    assert_eq!(outgoing[0].data(), &[0x00, 0x03, 0, 0, 0, 0, 0x0C]);
    assert_eq!(outgoing[1].data(), &[0x00, 0x04, 0, 0, 0, 0]);
    assert!(matches!(message, Ok(Some(ServerMessage::Core(CoreServerMessage::ReliableData(_))))));
    // with no datagram the sequencer is polled
    let (outgoing, message) = conn.tick(None, at(301));
    assert!(outgoing.is_empty());
    assert!(matches!(message, Ok(Some(ServerMessage::Game(GameServerMessage::InGame)))));
    let (_, message) = conn.tick(None, at(302));
    assert!(matches!(message, Ok(None)));
}

#[test]
fn process_packet_takes_a_player_id() {
    let (mut conn, _) = Connection::with_key(0);
    let message = ServerMessage::parse(&[0x01, 0x34, 0x12]).unwrap().unwrap();
    let replies = conn.process_packet(&message, at(1));
    assert!(replies.is_empty());
    assert_eq!(conn.player_id.value, 0x1234);
}

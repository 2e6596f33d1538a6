use subspace_client::error::{DecodeError, MessageKind};
use subspace_client::net::packet::bi::{
    ClusterMessage, HugeChunkMessage, ReliableAckMessage, ReliableDataMessage,
};
use subspace_client::net::packet::s2c::{
    ArenaDirectoryMessage, ChatKind, ChatMessage, CoreServerMessage, ExtraPositionData,
    FlagRewardMessage, GameServerMessage, ItemSet, LargePositionMessage, LoginResponse,
    PlayerEnteringMessage, ServerMessage, SmallPositionMessage, SpectateDataMessage,
};
use subspace_client::net::packet::{Packet, Serialize};
use subspace_client::ship::Ship;

fn game(packet: &[u8]) -> GameServerMessage {
    match ServerMessage::parse(packet) {
        Ok(Some(ServerMessage::Game(m))) => m,
        _ => panic!("expected a game message"),
    }
}

fn core_message(packet: &[u8]) -> CoreServerMessage {
    match ServerMessage::parse(packet) {
        Ok(Some(ServerMessage::Core(m))) => m,
        _ => panic!("expected a core message"),
    }
}

fn error(packet: &[u8]) -> DecodeError {
    match ServerMessage::parse(packet) {
        Err(e) => e,
        _ => panic!("expected an error"),
    }
}

#[test]
fn empty_packet_is_too_short() {
    assert_eq!(error(&[]), DecodeError::TooShort(MessageKind::Unknown));
    assert_eq!(error(&[0]), DecodeError::TooShort(MessageKind::Unknown));
}

#[test]
fn unknown_types_are_invalid() {
    assert_eq!(error(&[0x3D, 0, 0]), DecodeError::InvalidEnum(MessageKind::Game(0x3D)));
    assert_eq!(error(&[0xFF]), DecodeError::InvalidEnum(MessageKind::Game(0xFF)));
    assert_eq!(error(&[0, 0x01, 0, 0]), DecodeError::InvalidEnum(MessageKind::Core(0x01)));
    assert_eq!(error(&[0, 0x0D]), DecodeError::InvalidEnum(MessageKind::Core(0x0D)));
    assert_eq!(error(&[0, 0x05, 1, 2, 3, 4]), DecodeError::InvalidEnum(MessageKind::Core(5)));
}

#[test]
fn short_messages_are_refused() {
    assert_eq!(error(&[0x01, 0]), DecodeError::TooShort(MessageKind::Game(0x01)));
    assert_eq!(error(&[0x05; 20]), DecodeError::TooShort(MessageKind::Game(0x05)));
    assert_eq!(error(&[0x0A; 27]), DecodeError::TooShort(MessageKind::Game(0x0A)));
    assert_eq!(error(&[0x0F; 1427]), DecodeError::TooShort(MessageKind::Game(0x0F)));
    assert_eq!(error(&[0x19; 273]), DecodeError::TooShort(MessageKind::Game(0x19)));
    assert_eq!(error(&[0x1C]), DecodeError::TooShort(MessageKind::Game(0x1C)));
    assert_eq!(error(&[0x28; 15]), DecodeError::TooShort(MessageKind::Game(0x28)));
    assert_eq!(error(&[0, 0x02, 1, 2, 3]), DecodeError::TooShort(MessageKind::Core(0x02)));
    assert_eq!(error(&[0, 0x03, 1, 2, 3, 4]), DecodeError::TooShort(MessageKind::Core(0x03)));
    assert_eq!(error(&[0, 0x04, 1, 2, 3]), DecodeError::TooShort(MessageKind::Core(0x04)));
    assert_eq!(error(&[0, 0x06, 1, 2, 3, 4, 5, 6, 7]), DecodeError::TooShort(MessageKind::Core(6)));
    assert_eq!(error(&[0, 0x0A, 1, 2, 3]), DecodeError::TooShort(MessageKind::Core(0x0A)));
}

#[test]
fn overlong_messages_are_refused() {
    let mut reliable = vec![0u8; 6 + 521];
    reliable[1] = 0x03;
    assert_eq!(error(&reliable), DecodeError::TooLong(MessageKind::Core(0x03)));
    let mut cluster = vec![0u8; 2 + 521];
    cluster[1] = 0x0E;
    assert_eq!(error(&cluster), DecodeError::TooLong(MessageKind::Core(0x0E)));
    assert_eq!(error(&[0x0F; 1429]), DecodeError::TooLong(MessageKind::Game(0x0F)));
    cluster.truncate(522);
    assert!(matches!(core_message(&cluster), CoreServerMessage::Cluster(_)));
}

#[test]
fn text_that_is_not_utf8_is_refused() {
    assert_eq!(
        error(&[0x07, 2, 0, 1, 0, b'h', 0xFF, b'i']),
        DecodeError::InvalidUtf8(MessageKind::Game(0x07))
    );
    assert_eq!(error(&[0x33, 0xC3]), DecodeError::InvalidUtf8(MessageKind::Game(0x33)));
    let mut map = vec![0u8; 21];
    map[0] = 0x29;
    map[3] = 0x80;
    assert_eq!(error(&map), DecodeError::InvalidUtf8(MessageKind::Game(0x29)));
    let mut entering = vec![0u8; 64];
    entering[0] = 0x03;
    entering[30] = 0xFF;
    assert_eq!(error(&entering), DecodeError::InvalidUtf8(MessageKind::Game(0x03)));
    assert_eq!(error(&[0x2F, 0xFF, 0, 1, 0]), DecodeError::InvalidUtf8(MessageKind::Game(0x2F)));
}

#[test]
fn unit_messages() {
    assert!(matches!(game(&[0x02]), GameServerMessage::InGame));
    assert!(matches!(game(&[0x11, 9, 9]), GameServerMessage::Unknown11));
    assert!(matches!(game(&[0x17]), GameServerMessage::Unknown17));
    assert!(matches!(game(&[0x1B]), GameServerMessage::ShipReset));
    assert!(matches!(game(&[0x26]), GameServerMessage::Unknown26));
    assert!(matches!(game(&[0x27]), GameServerMessage::KeepAlive));
    assert!(matches!(game(&[0x31]), GameServerMessage::PostLogin));
    assert!(matches!(game(&[0x35]), GameServerMessage::LvzToggle));
    assert!(matches!(game(&[0x36]), GameServerMessage::LvzModify));
    assert!(matches!(game(&[0x37]), GameServerMessage::WatchDamageToggle));
    assert!(matches!(game(&[0x38]), GameServerMessage::WatchDamage));
    assert!(matches!(game(&[0x39]), GameServerMessage::BatchedSmallPosition));
    assert!(matches!(game(&[0x3A]), GameServerMessage::BatchedLargePosition));
    assert!(matches!(game(&[0x3B]), GameServerMessage::Redirect));
    assert!(matches!(game(&[0x3C]), GameServerMessage::SelectBox));
    assert!(matches!(core_message(&[0, 0x07]), CoreServerMessage::Disconnect));
    assert!(matches!(core_message(&[0, 0x0B]), CoreServerMessage::HugeChunkCancel));
    assert!(matches!(core_message(&[0, 0x0C]), CoreServerMessage::HugeChunkCancelAck));
}

#[test]
fn core_messages_with_fields() {
    match core_message(&[0, 0x02, 0x78, 0x56, 0x34, 0x12]) {
        CoreServerMessage::EncryptionResponse(m) => assert_eq!(m.key, 0x1234_5678),
        _ => panic!(),
    }
    match core_message(&[0, 0x03, 9, 0, 0, 0, 0xAA, 0xBB]) {
        CoreServerMessage::ReliableData(m) => {
            assert_eq!(m.id, 9);
            assert_eq!(m.data.data(), &[0xAA, 0xBB]);
        }
        _ => panic!(),
    }
    match core_message(&[0, 0x04, 1, 1, 0, 0]) {
        CoreServerMessage::ReliableAck(m) => assert_eq!(m.id, 257),
        _ => panic!(),
    }
    match core_message(&[0, 0x06, 0x10, 0x27, 0, 0x80, 0x50, 0xC3, 0, 0]) {
        CoreServerMessage::SyncResponse(m) => {
            // the top bit of a tick is dropped
            assert_eq!(m.request_timestamp.value(), 10_000);
            assert_eq!(m.server_timestamp.value(), 50_000);
        }
        _ => panic!(),
    }
    match core_message(&[0, 0x08]) {
        CoreServerMessage::SmallChunkBody(m) => assert_eq!(m.data.size, 0),
        _ => panic!(),
    }
    match core_message(&[0, 0x09, 5]) {
        CoreServerMessage::SmallChunkTail(m) => assert_eq!(m.data.data(), &[5]),
        _ => panic!(),
    }
    match core_message(&[0, 0x0A, 0, 1, 0, 0, 7, 7]) {
        CoreServerMessage::HugeChunk(m) => {
            assert_eq!(m.total_size, 256);
            assert_eq!(m.data.data(), &[7, 7]);
        }
        _ => panic!(),
    }
    match core_message(&[0, 0x0E, 1, 2]) {
        CoreServerMessage::Cluster(m) => assert_eq!(m.data.data(), &[1, 2]),
        _ => panic!(),
    }
}

#[test]
fn core_messages_round_trip() {
    let reliable = ReliableDataMessage { id: 0xDEAD_BEEF, data: Packet::new(&[1, 2, 3]) };
    match core_message(reliable.serialize().data()) {
        CoreServerMessage::ReliableData(m) => {
            assert_eq!(m.id, reliable.id);
            assert_eq!(m.data.data(), reliable.data.data());
        }
        _ => panic!(),
    }
    let ack = ReliableAckMessage { id: 77 };
    assert_eq!(ack.serialize().data(), &[0, 4, 77, 0, 0, 0]);
    match core_message(ack.serialize().data()) {
        CoreServerMessage::ReliableAck(m) => assert_eq!(m.id, 77),
        _ => panic!(),
    }
    let huge = HugeChunkMessage { total_size: 100_000, data: Packet::new(&[9; 514]) };
    match core_message(huge.serialize().data()) {
        CoreServerMessage::HugeChunk(m) => {
            assert_eq!(m.total_size, 100_000);
            assert_eq!(m.data.data(), &[9u8; 514][..]);
        }
        _ => panic!(),
    }
    let cluster = ClusterMessage { data: Packet::new(&[1, 0x02]) };
    match core_message(cluster.serialize().data()) {
        CoreServerMessage::Cluster(m) => assert_eq!(m.data.data(), &[1, 0x02]),
        _ => panic!(),
    }
}

#[test]
fn player_id_and_leaving() {
    match game(&[0x01, 0x34, 0x12, 0xFF]) {
        GameServerMessage::PlayerId(m) => assert_eq!(m.id, 0x1234),
        _ => panic!(),
    }
    match game(&[0x04, 5, 0]) {
        GameServerMessage::PlayerLeaving(m) => assert_eq!(m.player_id, 5),
        _ => panic!(),
    }
}

fn entering_record(ship: u8, name: &str, squad: &str, id: u16) -> Vec<u8> {
    let mut r = vec![0u8; 64];
    r[0] = 0x03;
    r[1] = ship;
    r[3..3 + name.len()].copy_from_slice(name.as_bytes());
    r[23..23 + squad.len()].copy_from_slice(squad.as_bytes());
    r[43..47].copy_from_slice(&1000u32.to_le_bytes());
    r[47..51].copy_from_slice(&2000u32.to_le_bytes());
    r[51..53].copy_from_slice(&id.to_le_bytes());
    r[53..55].copy_from_slice(&7u16.to_le_bytes());
    r[55..57].copy_from_slice(&8u16.to_le_bytes());
    r[57..59].copy_from_slice(&9u16.to_le_bytes());
    r[59..61].copy_from_slice(&0xFFFFu16.to_le_bytes());
    r[61..63].copy_from_slice(&2u16.to_le_bytes());
    r[63] = 1;
    r
}

#[test]
fn player_entering_records() {
    let mut packet = entering_record(3, "alice", "squad", 11);
    packet.extend(entering_record(8, "bob", "", 12));
    packet.extend([1, 2, 3]);
    let players = match game(&packet) {
        GameServerMessage::PlayerEntering(m) => m.players,
        _ => panic!(),
    };
    assert_eq!(players.len(), 2);
    assert_eq!(players[0].ship, Ship::Leviathan);
    assert_eq!(players[0].name, format!("alice{}", "\0".repeat(15)));
    assert_eq!(players[0].squad, format!("squad{}", "\0".repeat(15)));
    assert_eq!(players[0].kill_points, 1000);
    assert_eq!(players[0].flag_points, 2000);
    assert_eq!(players[0].player_id, 11);
    assert_eq!(players[0].frequency, 7);
    assert_eq!(players[0].kills, 8);
    assert_eq!(players[0].deaths, 9);
    assert_eq!(players[0].attach_parent, 0xFFFF);
    assert_eq!(players[0].flag_count, 2);
    assert!(players[0].has_koth);
    assert_eq!(players[1].ship, Ship::Spectator);
    assert_eq!(players[1].player_id, 12);
    let none = PlayerEnteringMessage::parse(&[0x03; 63]).unwrap();
    assert!(none.players.is_empty());
}

#[test]
fn large_position_with_and_without_extra() {
    let mut packet = vec![
        0x05, 9, 0x34, 0x12, 100, 0, 0xFE, 0xFF, 7, 0, 0x02, 0x80, 0xAB, 0x40, 33, 200, 0, 0x10,
        0x27, 0x55, 0xAA,
    ];
    let plain: LargePositionMessage = match game(&packet) {
        GameServerMessage::LargePosition(m) => m,
        _ => panic!(),
    };
    assert_eq!(plain.direction, 9);
    assert_eq!(plain.timestamp, 0x1234);
    assert_eq!(plain.x, 100);
    assert_eq!(plain.y_velocity, -2);
    assert_eq!(plain.player_id, 7);
    assert_eq!(plain.x_velocity, -32766);
    assert_eq!(plain.checksum, 0xAB);
    assert_eq!(plain.status, 0x40);
    assert_eq!(plain.ping, 33);
    assert_eq!(plain.y, 200);
    assert_eq!(plain.bounty, 10_000);
    assert_eq!(plain.weapon, 0xAA55);
    assert_eq!(
        plain.extra,
        Some(ExtraPositionData { energy: 0, s2c_lag: 0, timer: 0, items: ItemSet::empty() })
    );
    packet.extend([0x01, 0x02, 0x03, 0x04, 0x05]);
    let some = match game(&packet) {
        GameServerMessage::LargePosition(m) => m.extra.unwrap(),
        _ => panic!(),
    };
    // a field that the packet ends in the middle of is not read
    assert_eq!((some.energy, some.s2c_lag, some.timer), (0x0201, 0x0403, 0));
    packet.extend([0x06, 0xFF, 0xFF, 0xFF, 0xFF]);
    let full = match game(&packet) {
        GameServerMessage::LargePosition(m) => m.extra.unwrap(),
        _ => panic!(),
    };
    assert_eq!(full.timer, 0x0605);
    assert_eq!(full.items, ItemSet::parse(0xFFFF_FFFF));
}

#[test]
fn small_position_with_and_without_extra() {
    let mut packet =
        vec![0x28, 3, 0xFF, 0xFF, 0x01, 0x02, 44, 55, 66, 77, 0x00, 0x80, 0x03, 0x04, 0xFF, 0x7F];
    let plain: SmallPositionMessage = match game(&packet) {
        GameServerMessage::SmallPosition(m) => m,
        _ => panic!(),
    };
    assert_eq!(plain.direction, 3);
    assert_eq!(plain.timestamp, 0xFFFF);
    assert_eq!(plain.x, 0x0201);
    assert_eq!(plain.ping, 44);
    assert_eq!(plain.bounty, 55);
    assert_eq!(plain.player_id, 66);
    assert_eq!(plain.status, 77);
    assert_eq!(plain.y_velocity, i16::MIN);
    assert_eq!(plain.y, 0x0403);
    assert_eq!(plain.x_velocity, i16::MAX);
    assert_eq!(plain.extra, None);
    packet.push(9);
    let one = match game(&packet) {
        GameServerMessage::SmallPosition(m) => m.extra,
        _ => panic!(),
    };
    assert_eq!(
        one,
        Some(ExtraPositionData { energy: 0, s2c_lag: 0, timer: 0, items: ItemSet::empty() })
    );
    packet.extend([1, 2, 0, 3, 0, 0b0100_0110, 0, 0, 0]);
    let full = match game(&packet) {
        GameServerMessage::SmallPosition(m) => m.extra.unwrap(),
        _ => panic!(),
    };
    assert_eq!((full.energy, full.s2c_lag, full.timer), (0x0109, 2, 3));
    assert!(!full.items.shield_active);
    assert!(full.items.super_active);
    assert_eq!(full.items.bursts, 1);
    assert_eq!(full.items.repels, 1);
}

#[test]
fn item_set_bits() {
    assert_eq!(ItemSet::parse(0), ItemSet::empty());
    let all = ItemSet::parse(0xFFFF_FFFF);
    assert!(all.shield_active && all.super_active);
    assert_eq!(
        (all.bursts, all.repels, all.thors, all.bricks, all.decoys, all.rockets, all.portals),
        (15, 15, 15, 15, 15, 15, 15)
    );
    let some = ItemSet::parse(1 | (3 << 2) | (4 << 6) | (5 << 10) | (6 << 14) | (7 << 18) | (8 << 22) | (9 << 26));
    assert!(some.shield_active && !some.super_active);
    assert_eq!(
        (some.bursts, some.repels, some.thors, some.bricks, some.decoys, some.rockets, some.portals),
        (3, 4, 5, 6, 7, 8, 9)
    );
}

#[test]
fn player_death() {
    match game(&[0x06, 0xFF, 1, 0, 2, 0, 3, 0, 4, 0]) {
        GameServerMessage::PlayerDeath(m) => {
            assert_eq!(m.prize_id, -1);
            assert_eq!((m.killer_id, m.killed_id, m.bounty, m.flag_transfer), (1, 2, 3, 4));
        }
        _ => panic!(),
    }
}

#[test]
fn chat_message() {
    let chat: ChatMessage = match game(&[0x07, 5, 9, 0x34, 0x12, b'h', b'i', 0]) {
        GameServerMessage::Chat(m) => m,
        _ => panic!(),
    };
    assert_eq!(chat.kind, ChatKind::Private);
    assert_eq!(chat.sound, 9);
    assert_eq!(chat.sender, 0x1234);
    assert_eq!(chat.message, "hi\0");
    match game(&[0x07, 200, 0, 0, 0]) {
        GameServerMessage::Chat(m) => {
            assert_eq!(m.kind, ChatKind::Arena);
            assert_eq!(m.message, "");
        }
        _ => panic!(),
    }
}

#[test]
fn chat_kinds() {
    let kinds = [
        ChatKind::Arena,
        ChatKind::PublicMacro,
        ChatKind::Public,
        ChatKind::Team,
        ChatKind::Frequency,
        ChatKind::Private,
        ChatKind::Warning,
        ChatKind::RemotePrivate,
        ChatKind::Error,
        ChatKind::Channel,
    ];
    for (i, kind) in kinds.iter().enumerate() {
        assert_eq!(kind.wire_value(), i as u8);
        assert_eq!(ChatKind::from_wire(i as u8), *kind);
    }
    assert_eq!(ChatKind::from_wire(10), ChatKind::Arena);
}

#[test]
fn password_response() {
    let mut packet = vec![0u8; 28];
    packet[0] = 0x0A;
    packet[1] = 0x01;
    packet[2..6].copy_from_slice(&134u32.to_le_bytes());
    packet[19] = 1;
    packet[24..28].copy_from_slice(&0xCAFE_F00Du32.to_le_bytes());
    match game(&packet) {
        GameServerMessage::PasswordResponse(m) => {
            assert_eq!(m.response, LoginResponse::Unregistered);
            assert_eq!(m.server_version, 134);
            assert!(m.registration_request);
            assert_eq!(m.news_checksum, 0xCAFE_F00D);
        }
        _ => panic!(),
    }
}

#[test]
fn login_response_codes() {
    let expected = [
        LoginResponse::Okay,
        LoginResponse::Unregistered,
        LoginResponse::BadPassword,
        LoginResponse::ArenaFull,
        LoginResponse::LockedOut,
        LoginResponse::PermissionOnly,
        LoginResponse::SpectateOnly,
        LoginResponse::HighPoints,
        LoginResponse::ConnectionSlow,
        LoginResponse::PermissionOnly,
        LoginResponse::ServerFull,
        LoginResponse::InvalidName,
        LoginResponse::OffensiveName,
        LoginResponse::NoBiller,
        LoginResponse::ServerBusy,
        LoginResponse::UsageLow,
        LoginResponse::Restricted,
        LoginResponse::Demo,
        LoginResponse::TooManyDemo,
        LoginResponse::DemoDisabled,
    ];
    for (code, response) in expected.iter().enumerate() {
        assert_eq!(LoginResponse::from_wire(code as u8), *response);
    }
    assert_eq!(LoginResponse::from_wire(0x14), LoginResponse::Restricted);
    assert_eq!(LoginResponse::from_wire(0xFF), LoginResponse::Restricted);
}

#[test]
fn fixed_layout_messages() {
    match game(&[0x08, 1, 0, 0, 0x80, 2, 0, 3, 0, 0xFF, 0xFF, 4, 0]) {
        GameServerMessage::PrizePickup(m) => {
            assert_eq!(m.timestamp.value(), 1);
            assert_eq!((m.x, m.y, m.prize_id, m.player_id), (2, 3, -1, 4));
        }
        _ => panic!(),
    }
    match game(&[0x09, 1, 0, 2, 0, 0, 0, 3, 0, 0, 0, 4, 0, 5, 0]) {
        GameServerMessage::ScoreUpdate(m) => {
            assert_eq!((m.player_id, m.kill_points, m.flag_points, m.kills, m.deaths), (1, 2, 3, 4, 5))
        }
        _ => panic!(),
    }
    match game(&[0x0B, 1, 0, 0, 0, 1, 0]) {
        GameServerMessage::PowerballGoal(m) => assert_eq!((m.frequency, m.team_points), (1, 65536)),
        _ => panic!(),
    }
    match game(&[0x0C, 1, 0, 9, 8, 7]) {
        GameServerMessage::Voice(m) => {
            assert_eq!(m.player_id, 1);
            assert_eq!(m.wav_data, vec![9, 8, 7]);
        }
        _ => panic!(),
    }
    match game(&[0x0D, 1, 0, 2, 0]) {
        GameServerMessage::PlayerFrequencyChange(m) => assert_eq!((m.player_id, m.frequency), (1, 2)),
        _ => panic!(),
    }
    match game(&[0x12, 1, 0, 2, 0, 3, 0, 4, 0]) {
        GameServerMessage::FlagPosition(m) => {
            assert_eq!((m.flag_id, m.x, m.y, m.owner_freq), (1, 2, 3, 4))
        }
        _ => panic!(),
    }
    match game(&[0x13, 1, 0, 2, 0]) {
        GameServerMessage::FlagClaim(m) => assert_eq!((m.flag_id, m.player_id), (1, 2)),
        _ => panic!(),
    }
    match game(&[0x14, 1, 0, 2, 0, 0, 0]) {
        GameServerMessage::FlagVictory(m) => assert_eq!((m.frequency, m.points), (1, 2)),
        _ => panic!(),
    }
    match game(&[0x15, 1, 0]) {
        GameServerMessage::TurretLinkDestroy(m) => assert_eq!(m.player_id, 1),
        _ => panic!(),
    }
    match game(&[0x16, 1, 0]) {
        GameServerMessage::FlagDrop(m) => assert_eq!(m.player_id, 1),
        _ => panic!(),
    }
    match game(&[0x18, 1, 0, 0, 0, 2, 0, 0, 0, 3, 0, 0, 0, 4, 0, 0, 0]) {
        GameServerMessage::SynchronizationRequest(m) => {
            assert_eq!((m.prize_seed, m.door_seed, m.timestamp.value(), m.checksum_key), (1, 2, 3, 4))
        }
        _ => panic!(),
    }
    match game(&[0x1A, 1, 0]) {
        GameServerMessage::ResetScore(m) => assert_eq!(m.player_id, 1),
        _ => panic!(),
    }
    match game(&[0x1D, 4, 1, 0, 2, 0]) {
        GameServerMessage::PlayerTeamAndShipChange(m) => {
            assert_eq!(m.ship, Ship::Terrier);
            assert_eq!((m.player_id, m.frequency), (1, 2));
        }
        _ => panic!(),
    }
    match game(&[0x1E, 0]) {
        GameServerMessage::SelfBannerChanged(m) => assert!(!m.enabled),
        _ => panic!(),
    }
    match game(&[0x20, 1, 0, 0xFE, 0xFF]) {
        GameServerMessage::CollectedPrize(m) => assert_eq!((m.count, m.prize_id), (1, -2)),
        _ => panic!(),
    }
    match game(&[0x21, 1, 0, 2, 0, 3, 0, 4, 0, 5, 0, 6, 0, 7, 0, 0, 0]) {
        GameServerMessage::BrickDrop(m) => {
            assert_eq!((m.x1, m.y1, m.x2, m.y2, m.frequency, m.brick_id), (1, 2, 3, 4, 5, 6));
            assert_eq!(m.timestamp.value(), 7);
        }
        _ => panic!(),
    }
    match game(&[0x25, 2]) {
        GameServerMessage::ToggleUfo(m) => assert!(m.enable),
        _ => panic!(),
    }
    match game(&[0x2B, 1, 0, 0, 0]) {
        GameServerMessage::KothSetTimer(m) => assert_eq!(m.timer, 1),
        _ => panic!(),
    }
    match game(&[0x2C, 1, 2, 0, 0, 0, 3, 0]) {
        GameServerMessage::KothReset(m) => {
            assert!(m.add_crown);
            assert_eq!((m.timer, m.player_id), (2, 3));
        }
        _ => panic!(),
    }
    match game(&[0x2D, 1, 0, 0, 0]) {
        GameServerMessage::KothAddTime(m) => assert_eq!(m.added_time, 1),
        _ => panic!(),
    }
    match game(&[0x2E, 1, 2, 0, 3, 0, 0xFF, 0xFF, 4, 0, 5, 0, 6, 0, 0, 0]) {
        GameServerMessage::PowerballPosition(m) => {
            assert_eq!((m.ball_id, m.x, m.y, m.x_velocity, m.y_velocity, m.owner_id), (1, 2, 3, -1, 4, 5));
            assert_eq!(m.timestamp.value(), 6);
        }
        _ => panic!(),
    }
    match game(&[0x30, 1, 2, 0, 3, 0, 4, 0, 0, 0, 9, 9]) {
        GameServerMessage::ZoneBanner(m) => {
            assert_eq!((m.display_mode, m.width, m.height, m.duration), (1, 2, 3, 4));
            assert_eq!(m.data, vec![9, 9]);
        }
        _ => panic!(),
    }
    match game(&[0x32, 1, 0, 2, 0]) {
        GameServerMessage::SetShipCoordinates(m) => assert_eq!((m.x, m.y), (1, 2)),
        _ => panic!(),
    }
    match game(&[0x33, b'n', b'o']) {
        GameServerMessage::CustomLoginFailure(m) => assert_eq!(m.reason, "no"),
        _ => panic!(),
    }
    match game(&[0x34, 40, 0, 1, 0, 0, 0]) {
        GameServerMessage::ContinuumVersion(m) => assert_eq!((m.version, m.checksum), (40, 1)),
        _ => panic!(),
    }
}

#[test]
fn optional_fields() {
    match game(&[0x0E, 1, 0]) {
        GameServerMessage::TurretLinkCreate(m) => {
            assert_eq!((m.requester_id, m.destination_id), (1, None))
        }
        _ => panic!(),
    }
    match game(&[0x0E, 1, 0, 2]) {
        GameServerMessage::TurretLinkCreate(m) => assert_eq!(m.destination_id, None),
        _ => panic!(),
    }
    match game(&[0x0E, 1, 0, 2, 0]) {
        GameServerMessage::TurretLinkCreate(m) => assert_eq!(m.destination_id, Some(2)),
        _ => panic!(),
    }
    let mut map = vec![0x29];
    map.extend(b"arena.lvl\0\0\0\0\0\0\0");
    map.extend(0x1122_3344u32.to_le_bytes());
    match game(&map) {
        GameServerMessage::MapInformation(m) => {
            assert_eq!(m.filename, "arena.lvl\0\0\0\0\0\0\0");
            assert_eq!(m.checksum, 0x1122_3344);
            assert_eq!(m.filesize, None);
        }
        _ => panic!(),
    }
    map.extend(5000u32.to_le_bytes());
    match game(&map) {
        GameServerMessage::MapInformation(m) => assert_eq!(m.filesize, Some(5000)),
        _ => panic!(),
    }
}

#[test]
fn spectate_data() {
    assert_eq!(
        SpectateDataMessage::parse(&[0x1C, 1]).unwrap(),
        SpectateDataMessage::ExtraPositionInfo(true)
    );
    assert_eq!(
        SpectateDataMessage::parse(&[0x1C, 0]).unwrap(),
        SpectateDataMessage::ExtraPositionInfo(false)
    );
    assert_eq!(
        SpectateDataMessage::parse(&[0x1C, 5, 1]).unwrap(),
        SpectateDataMessage::Player(261)
    );
}

#[test]
fn files_and_banners() {
    let mut file = vec![0x10];
    file.extend(b"news.txt\0\0\0\0\0\0\0\0");
    file.extend([1, 2, 3]);
    match game(&file) {
        GameServerMessage::FileTransfer(m) => {
            assert_eq!(m.filename.len(), 16);
            assert!(m.filename.starts_with("news.txt"));
            assert_eq!(m.data, vec![1, 2, 3]);
        }
        _ => panic!(),
    }
    file[0] = 0x2A;
    match game(&file) {
        GameServerMessage::CompressedMap(m) => {
            assert!(m.filename.starts_with("news.txt"));
            assert_eq!(m.data, vec![1, 2, 3]);
        }
        _ => panic!(),
    }
    let mut request = vec![0u8; 274];
    request[0] = 0x19;
    request[1] = b'a';
    request[257] = b'b';
    match game(&request) {
        GameServerMessage::RequestFile(m) => {
            assert_eq!(m.local_filename.len(), 256);
            assert!(m.local_filename.starts_with('a'));
            assert_eq!(m.remote_filename.len(), 17);
            assert!(m.remote_filename.starts_with('b'));
        }
        _ => panic!(),
    }
    let mut banner = vec![0x1F, 3, 0];
    banner.extend((0..96).map(|i| i as u8));
    match game(&banner) {
        GameServerMessage::PlayerBannerChanged(m) => {
            assert_eq!(m.player_id, 3);
            assert_eq!(m.banner_data[0], 0);
            assert_eq!(m.banner_data[95], 95);
        }
        _ => panic!(),
    }
    let mut over = vec![0u8; 38];
    over[0] = 0x24;
    over[1] = 1;
    over[2] = 3;
    over[4] = 4;
    over[24] = 9;
    over[36] = 7;
    match game(&over) {
        GameServerMessage::SpeedGameOver(m) => {
            assert!(m.best_recorded_game);
            assert_eq!((m.rank, m.score, m.player5_score, m.player5_id), (3, 4, 9, 7));
        }
        _ => panic!(),
    }
}

#[test]
fn turf_flags_and_rewards() {
    match game(&[0x22, 1, 0, 2, 0, 3]) {
        GameServerMessage::TurfFlagUpdate(m) => assert_eq!(m.flag_teams, vec![1, 2]),
        _ => panic!(),
    }
    let rewards = FlagRewardMessage::parse(&[0x23, 1, 0, 2, 0, 3, 0, 0xFF, 0xFF, 9]).unwrap().rewards;
    assert_eq!(rewards.len(), 2);
    assert_eq!((rewards[0].frequency, rewards[0].points), (1, 2));
    assert_eq!((rewards[1].frequency, rewards[1].points), (3, 0xFFFF));
}

#[test]
fn arena_directory() {
    let mut packet = vec![0x2F];
    packet.extend(b"pub\0");
    packet.extend(12i16.to_le_bytes());
    packet.extend(b"duel\0");
    packet.extend((-3i16).to_le_bytes());
    packet.extend(b"\0");
    packet.extend(i16::MIN.to_le_bytes());
    packet.extend([b'x', 0]);
    let entries = match game(&packet) {
        GameServerMessage::ArenaDirectory(m) => m.entries,
        _ => panic!(),
    };
    assert_eq!(entries.len(), 3);
    assert_eq!((entries[0].name.as_str(), entries[0].count, entries[0].current), ("pub", 12, false));
    assert_eq!((entries[1].name.as_str(), entries[1].count, entries[1].current), ("duel", 3, true));
    assert_eq!((entries[2].name.as_str(), entries[2].count, entries[2].current), ("", 32768, true));
    assert!(ArenaDirectoryMessage::parse(&[0x2F]).unwrap().entries.is_empty());
}

#[test]
fn arena_directory_cut_short() {
    // no terminator
    assert_eq!(error(&[0x2F, b'a', b'b', b'c']), DecodeError::TooShort(MessageKind::Game(0x2F)));
    // no room for the count
    assert_eq!(error(&[0x2F, b'a', 0, 1]), DecodeError::TooShort(MessageKind::Game(0x2F)));
    assert_eq!(
        error(&[0x2F, b'a', 0, 1, 0, b'b', b'c', 0, 1]),
        DecodeError::TooShort(MessageKind::Game(0x2F))
    );
    assert_eq!(ArenaDirectoryMessage::parse(&[]).err(), Some(DecodeError::TooShort(MessageKind::Game(0x2F))));
}

#[test]
fn parse_game_and_core_directly() {
    assert!(matches!(
        ServerMessage::parse_game_packet(&[0x02]),
        Ok(Some(ServerMessage::Game(GameServerMessage::InGame)))
    ));
    assert!(matches!(
        ServerMessage::parse_core_packet(&[0x00, 0x07]),
        Ok(Some(ServerMessage::Core(CoreServerMessage::Disconnect)))
    ));
    assert_eq!(
        ServerMessage::parse_core_packet(&[0x00]).err(),
        Some(DecodeError::TooShort(MessageKind::Unknown))
    );
}

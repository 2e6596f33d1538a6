use subspace_client::clock::{LocalTick, ServerTick};
use subspace_client::net::packet::bi::{
    DisconnectMessage, HugeChunkCancelAckMessage, HugeChunkCancelMessage, SyncRequestMessage,
};
use subspace_client::net::packet::c2s::{
    ArenaJoinMessage, ArenaRequest, AttachRequestMessage, ChangeArenaSettingsMessage,
    DeathMessage, DetachAllRequestMessage, DropBrickMessage, DropFlagsMessage,
    EncryptionClientVersion, EncryptionRequestMessage, FlagRequestMessage,
    FrequencyChangeMessage, KothEndMessage, LeaveArenaMessage, MapRequestMessage,
    NewsRequestMessage, PasswordMessage, PositionMessage, PowerballFireMessage,
    PowerballRequestMessage, PowerballScoreMessage, RegistrationFormMessage, RegistrationSex,
    RequestShipMessage, SecurityMessage, SecurityViolation, SecurityViolationExtMessage,
    SecurityViolationMessage, SendChatMessage, SendFileMessage, SendVoiceMessage,
    SetBannerMessage, SpectateMessage, SubspaceExeRequestMessage, TakePrizeMessage,
};
use subspace_client::net::packet::s2c::ChatKind;
use subspace_client::net::packet::Serialize;
use subspace_client::player::PlayerId;
use subspace_client::ship::Ship;
use subspace_client::weapon::{WeaponData, WeaponKind};

#[test]
fn encryption_request() {
    let m = EncryptionRequestMessage::new(0);
    assert_eq!(m.serialize().data(), &[0x00, 0x01, 0, 0, 0, 0, 0x01, 0x00]);
    let m = EncryptionRequestMessage { key: 0x8765_4321, version: EncryptionClientVersion::Continuum };
    assert_eq!(m.serialize().data(), &[0x00, 0x01, 0x21, 0x43, 0x65, 0x87, 0x11, 0x00]);
    assert_eq!(EncryptionClientVersion::ContinuumClassic.code(), 0x10);
}

#[test]
fn sync_request() {
    let m = SyncRequestMessage::at(LocalTick::new(10_000), 2, 3);
    assert_eq!(m.serialize().data(), &[0x00, 0x05, 0x10, 0x27, 0, 0, 2, 0, 0, 0, 3, 0, 0, 0]);
    let now = SyncRequestMessage::new(4, 5);
    assert_eq!((now.packets_sent, now.packets_recv), (4, 5));
    assert_eq!(now.serialize().size, 14);
}

#[test]
fn messages_of_one_byte() {
    assert_eq!(DisconnectMessage {}.serialize().data(), &[0x00, 0x07]);
    assert_eq!(HugeChunkCancelMessage {}.serialize().data(), &[0x00, 0x0B]);
    assert_eq!(HugeChunkCancelAckMessage {}.serialize().data(), &[0x00, 0x0C]);
    assert_eq!(LeaveArenaMessage {}.serialize().data(), &[0x02]);
    assert_eq!(SubspaceExeRequestMessage {}.serialize().data(), &[0x0B]);
    assert_eq!(MapRequestMessage {}.serialize().data(), &[0x0C]);
    assert_eq!(NewsRequestMessage {}.serialize().data(), &[0x0D]);
    assert_eq!(DetachAllRequestMessage {}.serialize().data(), &[0x14]);
    assert_eq!(DropFlagsMessage {}.serialize().data(), &[0x15]);
    assert_eq!(KothEndMessage {}.serialize().data(), &[0x1E]);
}

#[test]
fn arena_join() {
    let any = ArenaJoinMessage::new(Ship::Spectator, 1920, 1080, ArenaRequest::AnyPublic);
    let mut expected = vec![0x01, 8, 1, 0, 0x80, 0x07, 0x38, 0x04, 0xFF, 0xFF];
    expected.extend([0u8; 16]);
    assert_eq!(any.serialize().data(), &expected[..]);
    let numbered = ArenaJoinMessage::new(Ship::Warbird, 1, 2, ArenaRequest::SpecificPublic(3));
    assert_eq!(&numbered.serialize().data()[..10], &[0x01, 0, 1, 0, 1, 0, 2, 0, 3, 0]);
    let mut name = [0u8; 16];
    name[..4].copy_from_slice(b"duel");
    let named = ArenaJoinMessage::new(Ship::Shark, 1, 2, ArenaRequest::Name(name));
    let bytes = named.serialize();
    assert_eq!(&bytes.data()[8..10], &[0xFD, 0xFF]);
    assert_eq!(&bytes.data()[10..], &name);
    assert_eq!(bytes.size, 26);
}

#[test]
fn position_with_checksum() {
    let rest = PositionMessage::at_rest(ServerTick::new(50_301, 0));
    assert_eq!(
        rest.serialize().data(),
        &[3, 0, 125, 196, 0, 0, 0, 0, 0, 0, 186, 0, 0, 0, 0, 0, 0, 0, 0, 0, 0, 0]
    );
    let m = PositionMessage {
        direction: 7,
        timestamp: ServerTick::new(0x0102_0304, 0),
        x_position: 0x1111,
        y_position: 0x2222,
        x_velocity: -1,
        y_velocity: 2,
        togglables: 0x80,
        bounty: 5,
        energy: 1000,
        weapon_info: WeaponData::new(0x8421),
    };
    let bytes = m.serialize();
    let mut expected = vec![
        3, 7, 4, 3, 2, 1, 0xFF, 0xFF, 0x22, 0x22, 0, 0x80, 0x11, 0x11, 2, 0, 5, 0, 0xE8, 0x03,
        0x21, 0x84,
    ];
    expected[10] = expected.iter().fold(0, |a, b| a ^ b);
    assert_eq!(bytes.data(), &expected[..]);
    // the checksum makes the XOR of the whole packet zero
    assert_eq!(bytes.data().iter().fold(0u8, |a, b| a ^ b), 0);
}

#[test]
fn small_game_messages() {
    assert_eq!(
        DeathMessage { killer_id: PlayerId::new(0x0102), bounty: 3 }.serialize().data(),
        &[0x05, 2, 1, 3, 0]
    );
    assert_eq!(
        TakePrizeMessage { timestamp: ServerTick::new(1, 0), x: 2, y: 3, prize: -4 }
            .serialize()
            .data(),
        &[0x07, 1, 0, 0, 0, 2, 0, 3, 0, 0xFC, 0xFF]
    );
    assert_eq!(SpectateMessage { player_id: PlayerId::new(9) }.serialize().data(), &[0x08, 9, 0]);
    assert_eq!(FrequencyChangeMessage { frequency: 0x0201 }.serialize().data(), &[0x0F, 1, 2]);
    assert_eq!(
        AttachRequestMessage { player_id: PlayerId::invalid() }.serialize().data(),
        &[0x10, 0xFF, 0xFF]
    );
    assert_eq!(FlagRequestMessage { flag_id: 4 }.serialize().data(), &[0x13, 4, 0]);
    assert_eq!(RequestShipMessage { ship: Ship::Javelin }.serialize().data(), &[0x18, 1]);
    assert_eq!(DropBrickMessage { x: 1, y: 2 }.serialize().data(), &[0x1C, 1, 0, 2, 0]);
    assert_eq!(
        SecurityViolationMessage { violation: SecurityViolation::HighLatency }.serialize().data(),
        &[0x1B, 0x3C]
    );
    assert_eq!(
        PowerballRequestMessage { ball_id: 1, timestamp: ServerTick::new(2, 0) }
            .serialize()
            .data(),
        &[0x20, 1, 2, 0, 0, 0]
    );
    assert_eq!(
        PowerballScoreMessage { ball_id: 1, timestamp: ServerTick::new(2, 0) }.serialize().data(),
        &[0x21, 1, 2, 0, 0, 0]
    );
    assert_eq!(
        PowerballFireMessage {
            ball_id: 1,
            x: 2,
            y: 3,
            x_velocity: -1,
            y_velocity: 4,
            player_id: PlayerId::new(5),
            timestamp: ServerTick::new(6, 0),
        }
        .serialize()
        .data(),
        &[0x1F, 1, 2, 0, 3, 0, 0xFF, 0xFF, 4, 0, 5, 0, 6, 0, 0, 0]
    );
    assert_eq!(
        SecurityViolationExtMessage {
            unknown: 1,
            settings_checksum: 2,
            code_checksum1: 3,
            code_checksum2: 4,
            violation: SecurityViolation::UnknownIntegrity,
        }
        .serialize()
        .data(),
        &[0x22, 1, 0, 0, 0, 2, 0, 0, 0, 3, 0, 0, 0, 4, 0, 0, 0, 29]
    );
}

#[test]
fn security_violation_codes() {
    assert_eq!(SecurityViolation::Okay.code(), 0);
    assert_eq!(SecurityViolation::SlowFramerate.code(), 1);
    assert_eq!(SecurityViolation::Unknown.code(), 24);
    assert_eq!(SecurityViolation::UnknownIntegrity.code(), 29);
    assert_eq!(SecurityViolation::HighLatency.code(), 0x3C);
}

#[test]
fn chat_messages() {
    let m = SendChatMessage::public("hi");
    assert_eq!(m.serialize().data(), &[0x06, 2, 0, 0, 0, b'h', b'i', 0]);
    let m = SendChatMessage::private(PlayerId::new(0x0102), "x");
    assert_eq!(m.serialize().data(), &[0x06, 5, 0, 2, 1, b'x', 0]);
    assert_eq!(SendChatMessage::remote_private(":a:b").kind, ChatKind::RemotePrivate);
    assert_eq!(SendChatMessage::team("t").kind, ChatKind::Team);
    let m = SendChatMessage::frequency(7, "f");
    assert_eq!(m.serialize().data(), &[0x06, 3, 0, 7, 0, b'f', 0]);
    assert_eq!(SendChatMessage::channel("1;c").serialize().data()[1], 9);
    let empty = SendChatMessage::public("");
    assert_eq!(empty.serialize().data(), &[0x06, 2, 0, 0, 0, 0]);
    let long = "a".repeat(514);
    assert_eq!(SendChatMessage::public(&long).serialize().size, 520);
}

#[test]
fn password_message() {
    let m = PasswordMessage::new("test", "none", false, 0x0123_1241, 240, 0x86, 123_412);
    let bytes = m.serialize();
    assert_eq!(bytes.size, 101);
    let mut expected = vec![0x09, 0];
    expected.extend(b"test");
    expected.extend([0u8; 28]);
    expected.extend(b"none");
    expected.extend([0u8; 28]);
    expected.extend(0x0123_1241u32.to_le_bytes());
    expected.push(0x04);
    expected.extend(240u16.to_le_bytes());
    expected.extend(0u16.to_le_bytes());
    expected.extend(0x86u16.to_le_bytes());
    expected.extend(444u16.to_le_bytes());
    expected.extend(14u16.to_le_bytes());
    expected.extend(555u32.to_le_bytes());
    expected.extend(123_412u32.to_le_bytes());
    expected.extend([0u8; 12]);
    assert_eq!(bytes.data(), &expected[..]);
    let new_user = PasswordMessage::new("", "", true, 0, 0, 0, 0);
    assert_eq!(new_user.serialize().data()[1], 1);
}

#[test]
fn password_message_cuts_long_names() {
    let long = "x".repeat(40);
    let m = PasswordMessage::new(&long, "p", false, 0, 0, 0, 0);
    assert_eq!(m.name, [b'x'; 32]);
    assert_eq!(m.password[0], b'p');
    assert_eq!(m.password[1], 0);
}

#[test]
fn voice_and_banner() {
    let voice = SendVoiceMessage { index: 2, player_id: PlayerId::new(3), data: vec![9, 8] };
    assert_eq!(voice.serialize().data(), &[0x0E, 2, 3, 0, 9, 8]);
    let banner = [0x5Au8; 96];
    let bytes = SetBannerMessage { data: &banner }.serialize();
    assert_eq!(bytes.size, 97);
    assert_eq!(bytes.data()[0], 0x19);
    assert_eq!(&bytes.data()[1..], &banner[..]);
}

#[test]
fn security_message() {
    let m = SecurityMessage::new(1, 2, 3, 4);
    let bytes = m.serialize();
    assert_eq!(bytes.size, 40);
    let mut expected = vec![0x1A, 1, 0, 0, 0, 2, 0, 0, 0, 3, 0, 0, 0, 4, 0, 0, 0];
    expected.extend([0u8; 23]);
    assert_eq!(bytes.data(), &expected[..]);
    let mut slow = SecurityMessage::new(0, 0, 0, 0);
    slow.slow_frame = true;
    slow.ping_high = 0x0102;
    assert_eq!(&slow.serialize().data()[37..], &[2, 1, 1]);
}

#[test]
fn file_message() {
    let data = [1u8, 2, 3];
    let m = SendFileMessage { filename: "a.lvl".to_string(), data: &data };
    let mut out = [0xEEu8; 22];
    m.serialize(&mut out);
    // the name field is padded with zeros to its sixteen bytes
    let mut expected = vec![0x16];
    expected.extend(b"a.lvl");
    expected.extend([0u8; 11]);
    expected.extend([1, 2, 3]);
    expected.extend([0xEE, 0xEE]);
    assert_eq!(&out[..], &expected[..]);
    let long = SendFileMessage { filename: "0123456789abcdefXYZ".to_string(), data: &[] };
    let mut out = [0xEEu8; 17];
    long.serialize(&mut out);
    assert_eq!(&out[1..], b"0123456789abcdef");
    let unnamed = SendFileMessage { filename: String::new(), data: &[7] };
    let mut out = [0xEEu8; 18];
    unnamed.serialize(&mut out);
    assert_eq!(out[0], 0x16);
    assert_eq!(&out[1..17], &[0u8; 16]);
    assert_eq!(out[17], 7);
}

#[test]
fn registration_form() {
    assert_eq!(RegistrationSex::Male.value(), b'M');
    assert_eq!(RegistrationSex::Female.value(), b'F');
    let form = RegistrationFormMessage::new(
        "puppet",
        "puppet@puppet.com",
        "puppet city",
        "puppet state",
        RegistrationSex::Female,
        20,
    );
    assert!(form.connecting_from_home);
    assert!(!form.connecting_from_work && !form.connecting_from_school);
    assert_eq!(form.age, 20);
    let mut out = [0xEEu8; 170];
    form.serialize(&mut out);
    assert_eq!(out[0], 0x17);
    assert_eq!(&out[1..7], b"puppet");
    assert!(out[7..33].iter().all(|b| *b == 0));
    assert_eq!(&out[33..50], b"puppet@puppet.com");
    assert!(out[50..97].iter().all(|b| *b == 0));
    assert_eq!(&out[97..108], b"puppet city");
    assert_eq!(&out[129..141], b"puppet state");
    assert!(out[141..153].iter().all(|b| *b == 0));
    assert_eq!(&out[153..157], &[b'F', 1, 0, 0]);
    assert_eq!(&out[157..165], &[0u8; 8]);
    assert_eq!(&out[165..], &[0xEE; 5]);
}

#[test]
fn arena_settings_changes() {
    let changes = vec![
        ("Misc:A".to_string(), "1".to_string()),
        ("B".to_string(), "".to_string()),
    ];
    let bytes = ChangeArenaSettingsMessage { changes: &changes }.serialize();
    assert_eq!(bytes, b"\x1DMisc:A:1\0B:\0\0\0");
    let none: Vec<(String, String)> = Vec::new();
    assert_eq!(ChangeArenaSettingsMessage { changes: &none }.serialize(), vec![0x1D, 0, 0]);
}

#[test]
fn ship_numbers() {
    let ships = [
        Ship::Warbird,
        Ship::Javelin,
        Ship::Spider,
        Ship::Leviathan,
        Ship::Terrier,
        Ship::Weasel,
        Ship::Lancaster,
        Ship::Shark,
        Ship::Spectator,
    ];
    for (i, ship) in ships.iter().enumerate() {
        assert_eq!(ship.network_value(), i as u8);
        assert_eq!(Ship::from_network_value(i as u8), *ship);
    }
    assert_eq!(Ship::from_network_value(9), Ship::Spectator);
    assert_eq!(Ship::from_network_value(255), Ship::Spectator);
}

#[test]
fn weapon_descriptor_fields() {
    // kind 3, level 2, bouncing, shrapnel level 1, count 17, alternate
    let value: u16 = 3 | (2 << 5) | (1 << 7) | (1 << 8) | (17 << 10) | (1 << 15);
    let w = WeaponData::new(value);
    assert_eq!(w.value(), value);
    assert_eq!(w.kind(), WeaponKind::Bomb);
    assert_eq!(w.level(), 2);
    assert!(w.shrapnel_bouncing());
    assert_eq!(w.shrapnel_level(), 1);
    assert_eq!(w.shrapnel_count(), 17);
    assert!(w.alternate());
    let none = WeaponData::from(0);
    assert_eq!(none.kind(), WeaponKind::NoWeapon);
    assert!(!none.shrapnel_bouncing() && !none.alternate());
    assert_eq!((none.level(), none.shrapnel_level(), none.shrapnel_count()), (0, 0, 0));
}

#[test]
fn weapon_kinds() {
    let kinds = [
        WeaponKind::NoWeapon,
        WeaponKind::Bullet,
        WeaponKind::BouncingBullet,
        WeaponKind::Bomb,
        WeaponKind::ProximityBomb,
        WeaponKind::Repel,
        WeaponKind::Decoy,
        WeaponKind::Burst,
        WeaponKind::Thor,
    ];
    for (i, kind) in kinds.iter().enumerate() {
        assert_eq!(WeaponKind::from(i as u16), *kind);
        assert_eq!(WeaponData::new(i as u16).kind(), *kind);
    }
    assert_eq!(WeaponKind::from(15), WeaponKind::Shrapnel);
    assert_eq!(WeaponData::new(0xFFEF).kind(), WeaponKind::Shrapnel);
    assert_eq!(WeaponKind::from(9), WeaponKind::NoWeapon);
    assert_eq!(WeaponKind::from(31), WeaponKind::NoWeapon);
}

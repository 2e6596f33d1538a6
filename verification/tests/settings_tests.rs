use subspace_client::arena_settings::{
    ArenaSettings, PackedShipBits124, PackedShipBits28, PrizeWeightSettings, ShipSettings,
    SpawnSettings,
};
use subspace_client::net::packet::s2c::{GameServerMessage, ServerMessage};

fn ship_bytes() -> Vec<u8> {
    (0..144).map(|i| (i as u8).wrapping_mul(3).wrapping_add(1)).collect()
}

#[test]
fn spawn_settings_bits() {
    let bits: u32 = 512 | (1023 << 10) | (300 << 20) | (0x7 << 29);
    let spawn = SpawnSettings::parse(&bits.to_le_bytes()).unwrap();
    assert_eq!(spawn, SpawnSettings { x: 512, y: 1023, radius: 300 });
    assert_eq!(SpawnSettings::decode(0), SpawnSettings { x: 0, y: 0, radius: 0 });
    assert!(SpawnSettings::parse(&[0; 3]).is_none());
    assert!(SpawnSettings::parse(&[0; 5]).is_none());
}

#[test]
fn prize_weights_are_the_bytes() {
    let data: Vec<u8> = (100..128).collect();
    let weights = PrizeWeightSettings::parse(&data).unwrap();
    assert_eq!(weights.quick_charge, 100);
    assert_eq!(weights.energy, 101);
    assert_eq!(weights.gun, 107);
    assert_eq!(weights.thor, 123);
    assert_eq!(weights.portal, 127);
    assert!(PrizeWeightSettings::parse(&data[1..]).is_none());
    assert!(PrizeWeightSettings::parse(&[0; 29]).is_none());
}

#[test]
fn ship_settings_fields() {
    let mut data = ship_bytes();
    data[0..4].copy_from_slice(&123_456u32.to_le_bytes());
    data[8..10].copy_from_slice(&(-5i16).to_le_bytes());
    data[104..106].copy_from_slice(&0xBEEFu16.to_le_bytes());
    data[123] = 42;
    let ship = ShipSettings::parse(&data).unwrap();
    assert_eq!(ship.super_time, 123_456);
    assert_eq!(ship.shield_time, u32::from_le_bytes([data[4], data[5], data[6], data[7]]));
    assert_eq!(ship.gravity, -5);
    assert_eq!(ship.bullet_fire_energy, u16::from_le_bytes([data[12], data[13]]));
    assert_eq!(ship.multi_fire_angle, u16::from_le_bytes([data[30], data[31]]));
    assert_eq!(ship.turret_thrust_penalty, i16::from_le_bytes([data[76], data[77]]));
    assert_eq!(ship.powerball_speed, 0xBEEF);
    assert_eq!(ship.turret_limit, data[106]);
    assert_eq!(ship.initial_portal, data[122]);
    assert_eq!(ship.bomb_bounce_count, 42);
    assert!(ShipSettings::parse(&data[..143]).is_none());
    data.push(0);
    assert!(ShipSettings::parse(&data).is_none());
}

#[test]
fn ship_settings_packed_lanes() {
    let mut data = ship_bytes();
    // see bomb level 2, fast shooting disabled, radius 14
    let lane28: u16 = 2 | (1 << 2) | (14 << 3);
    data[28..30].copy_from_slice(&lane28.to_le_bytes());
    let lane124: u32 = 31
        | (7 << 5)
        | (1 << 10)
        | (2 << 12)
        | (3 << 14)
        | (0 << 16)
        | (1 << 18)
        | (3 << 20)
        | (2 << 22)
        | (1 << 24)
        | (1 << 26)
        | (0 << 27)
        | (1 << 28);
    data[124..128].copy_from_slice(&lane124.to_le_bytes());
    let ship = ShipSettings::parse(&data).unwrap();
    assert_eq!(ship.see_bomb_level, 2);
    assert!(ship.disable_fast_shooting);
    assert_eq!(ship.radius, 14);
    assert_eq!(ship.max_shrapnel, 31);
    assert_eq!(ship.shrapnel_rate, 7);
    assert_eq!(ship.cloak_status, 1);
    assert_eq!(ship.stealth_status, 2);
    assert_eq!(ship.xradar_status, 3);
    assert_eq!(ship.antiwarp_status, 0);
    assert_eq!(ship.initial_guns, 1);
    assert_eq!(ship.max_guns, 3);
    assert_eq!(ship.initial_bombs, 2);
    assert_eq!(ship.max_bombs, 1);
    assert!(ship.double_barrel);
    assert!(!ship.emp_bomb);
    assert!(ship.see_mines);
    // packing the fields again gives the lanes back
    assert_eq!(ship.packed_bits_28().encode(), lane28);
    assert_eq!(ship.packed_bits_124().encode(), lane124);
}

#[test]
fn repacking_reproduces_lanes_with_clear_reserved_bits() {
    for seed in 0..200u32 {
        let mut data: Vec<u8> =
            (0..144u32).map(|i| (i.wrapping_mul(2_654_435_761).wrapping_add(seed * 97) >> 13) as u8).collect();
        data[29] &= 0x07;
        data[127] &= 0x1F;
        let ship = ShipSettings::parse(&data).unwrap();
        assert_eq!(ship.packed_bits_28().encode().to_le_bytes(), [data[28], data[29]]);
        assert_eq!(
            ship.packed_bits_124().encode().to_le_bytes(),
            [data[124], data[125], data[126], data[127]]
        );
    }
}

#[test]
fn repacking_clears_reserved_bits() {
    assert_eq!(PackedShipBits28::decode(0xFFFF).encode(), 0x07FF);
    assert_eq!(PackedShipBits124::decode(0xFFFF_FFFF).encode(), 0x1FFF_FFFF);
    let bits = PackedShipBits28::decode(0xF800);
    assert_eq!((bits.see_bomb_level, bits.disable_fast_shooting, bits.radius), (0, false, 0));
    assert_eq!(PackedShipBits28::decode(0x07F8).radius, 255);
    // values wider than their field are cut when packed
    let wide = PackedShipBits28 { see_bomb_level: 7, disable_fast_shooting: false, radius: 0x1FF };
    assert_eq!(wide.encode(), 3 | (0xFF << 3));
}

fn arena_bytes() -> Vec<u8> {
    let mut data: Vec<u8> = (0..1428u32).map(|i| (i * 7 + 5) as u8).collect();
    data[0] = 0x0F;
    data
}

#[test]
fn arena_settings_fields() {
    let mut data = arena_bytes();
    // header bits: exact damage, slow framerate 5, max timer drift 3, ball killing off
    let header: u32 = 0x0F | (1 << 8) | (5 << 11) | (3 << 16) | (1 << 20);
    data[0..4].copy_from_slice(&header.to_le_bytes());
    data[1156..1160].copy_from_slice(&(-1000i32).to_le_bytes());
    data[1232..1236].copy_from_slice(&77i32.to_le_bytes());
    let spawn: u32 = 100 | (200 << 10) | (50 << 20);
    data[1248..1252].copy_from_slice(&spawn.to_le_bytes());
    data[1252..1254].copy_from_slice(&(-2i16).to_le_bytes());
    data[1356..1358].copy_from_slice(&1234i16.to_le_bytes());
    data[1368] = 3;
    data[1369] = 2;
    data[1372] = 9;
    data[1392] = 200;
    let settings = ArenaSettings::parse(&data).unwrap();
    assert!(settings.exact_damage);
    assert!(!settings.no_spec_flags);
    assert!(!settings.no_spec_xradar);
    assert_eq!(settings.slow_framerate, 5);
    assert!(!settings.disable_screenshot);
    assert_eq!(settings.max_timer_drift, 3);
    assert!(!settings.disable_ball_through_walls);
    assert!(settings.disable_ball_killing);
    assert_eq!(settings.bullet_damage_level, -1000);
    assert_eq!(settings.shrapnel_speed, 77);
    assert_eq!(settings.spawn_settings[3], SpawnSettings { x: 100, y: 200, radius: 50 });
    assert_eq!(settings.send_route_percent, -2);
    assert_eq!(settings.client_slow_packet_sample_size, 1234);
    assert!(settings.shrapnel_random);
    assert!(!settings.powerball_bounce);
    assert_eq!(settings.powerball_mode, 9);
    assert_eq!(settings.antiwarp_settle_delay, 200);
    assert_eq!(settings.prize_weights.quick_charge, data[1400]);
    assert_eq!(settings.prize_weights.portal, data[1427]);
    for i in 0..8 {
        let at = 4 + 144 * i;
        assert_eq!(
            settings.ship_settings[i].super_time,
            u32::from_le_bytes([data[at], data[at + 1], data[at + 2], data[at + 3]])
        );
        assert_eq!(settings.ship_settings[i].bomb_bounce_count, data[at + 123]);
    }
    assert_eq!(settings.bomb_safety, data[1377] & 1 != 0);
    assert_eq!(settings.near_death_level, i16::from_le_bytes([data[1330], data[1331]]));
}

#[test]
fn arena_settings_keep_their_bytes() {
    let data = arena_bytes();
    let settings = ArenaSettings::parse(&data).unwrap();
    assert_eq!(settings.raw_bytes, data);
    match ServerMessage::parse(&data) {
        Ok(Some(ServerMessage::Game(GameServerMessage::ArenaSettings(s)))) => {
            assert_eq!(s.raw_bytes, data)
        }
        _ => panic!("expected arena settings"),
    }
}

#[test]
fn arena_settings_are_exactly_1428_bytes() {
    let mut data = arena_bytes();
    assert!(ArenaSettings::parse(&data[..1427]).is_none());
    data.push(0);
    assert!(ArenaSettings::parse(&data).is_none());
    assert!(ArenaSettings::parse(&[]).is_none());
}

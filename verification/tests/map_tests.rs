use subspace_client::map::{TileMap, TILE_ID_FIRST_DOOR, TILE_ID_LAST_DOOR, TILE_ID_SAFE};

fn record(x: u32, y: u32, tile: u8) -> [u8; 4] {
    (x | (y << 12) | ((tile as u32) << 24)).to_le_bytes()
}

#[test]
fn empty_map() {
    let map = TileMap::empty(7, "a.lvl");
    assert_eq!(map.checksum, 7);
    assert_eq!(map.filename, "a.lvl");
    assert_eq!(map.tiles.len(), 1024 * 1024);
    assert_eq!(map.get_tile(0, 0), 0);
    assert_eq!(map.get_tile(1023, 1023), 0);
    assert!(!map.is_solid(5, 5));
}

#[test]
fn tiles_are_read_from_records() {
    let mut data = Vec::new();
    data.extend(record(1, 2, 20));
    data.extend(record(1023, 1023, 171));
    data.extend(record(1, 2, 30));
    data.extend([9, 9]);
    let map = TileMap::new(99, "b.lvl", &data).unwrap();
    assert_eq!(map.checksum, 99);
    assert_eq!(map.filename, "b.lvl");
    // of two records for one tile the later counts
    assert_eq!(map.get_tile(1, 2), 30);
    assert_eq!(map.get_tile(1023, 1023), TILE_ID_SAFE);
    assert_eq!(map.get_tile(2, 1), 0);
    assert_eq!(map.tiles.iter().filter(|t| **t != 0).count(), 2);
}

#[test]
fn bitmap_header_is_skipped() {
    let mut data = vec![b'B', b'M', 10, 0, 1, 2, 3, 4, 5, 6];
    data.extend(record(3, 4, 5));
    let map = TileMap::new(0, "", &data).unwrap();
    assert_eq!(map.get_tile(3, 4), 5);
    assert_eq!(map.tiles.iter().filter(|t| **t != 0).count(), 1);
    // without the letters the first bytes are a record
    let mut plain = vec![b'B', b'N', 0, 7];
    plain.extend(record(3, 4, 5));
    let map = TileMap::new(0, "", &plain).unwrap();
    assert_eq!(map.get_tile(0x2E42 & 0xFFF, 0x04), 7);
    assert_eq!(map.get_tile(3, 4), 5);
}

#[test]
fn data_without_records_are_no_map() {
    assert!(TileMap::new(0, "", &[]).is_none());
    assert!(TileMap::new(0, "", &[b'B', b'M', 4, 0]).is_none());
    assert!(TileMap::new(0, "", &[b'B', b'M', 200, 0, 1, 2]).is_none());
    // a start inside the data is enough, even with no whole record
    assert!(TileMap::new(0, "", &[1, 2, 3]).is_some());
}

#[test]
fn record_past_the_table_is_refused() {
    let mut data = Vec::new();
    data.extend(record(0, 0, 1));
    data.extend(record(0, 1024, 1));
    assert!(TileMap::new(0, "", &data).is_none());
    // a column past the last counts into the next rows
    let map = TileMap::new(0, "", &record(1025, 0, 9)).unwrap();
    assert_eq!(map.get_tile(1, 1), 9);
    assert!(TileMap::new(0, "", &record(4095, 1023, 9)).is_none());
}

fn map_with(tile: u8) -> TileMap {
    TileMap::new(0, "", &record(10, 10, tile)).unwrap()
}

#[test]
fn doors() {
    for tile in 0..=255u8 {
        let map = map_with(tile);
        assert_eq!(map.is_door(10, 10), (TILE_ID_FIRST_DOOR..=TILE_ID_LAST_DOOR).contains(&tile));
    }
}

#[test]
fn solid_tiles() {
    for tile in 0..=255u8 {
        let map = map_with(tile);
        let solid = match tile {
            0 => false,
            1..=169 => true,
            220 => false,
            192..=240 => true,
            242..=252 => true,
            _ => false,
        };
        assert_eq!(map.is_solid(10, 10), solid, "tile {}", tile);
        let door = (162..=169).contains(&tile);
        assert_eq!(map.is_solid_empty_doors(10, 10), solid && !door, "tile {}", tile);
    }
}

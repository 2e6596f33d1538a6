//! The tile map of an arena, as far as the protocol needs it.
//!
//! A map file is a stream of 32-bit records, each with a tile's x (12
//! bits), y (12 bits) and id (8 bits), after an optional bitmap whose
//! length the file's third and fourth byte give.

use crate::codec::{le_u16, le_u32, read_u16, read_u32};
use vstd::prelude::*;

verus! {

pub type TileId = u8;

pub const TILE_ID_FIRST_DOOR: TileId = 162;

pub const TILE_ID_LAST_DOOR: TileId = 169;

pub const TILE_ID_FLAG: TileId = 170;

pub const TILE_ID_SAFE: TileId = 171;

pub const TILE_ID_GOAL: TileId = 172;

pub const TILE_ID_WORMHOLE: TileId = 220;

/// Tiles along one side of the map.
pub const MAP_EXTENT: usize = 1024;

/// Tiles of the whole map.
pub const MAP_TILE_COUNT: usize = 1048576;

/// Where the tile records start: after the bitmap when the data open with
/// the letters `BM`, at the first byte otherwise.
pub open spec fn tile_data_start(data: Seq<u8>) -> int {
    if data.len() >= 4 && data[0] == 66 && data[1] == 77 {
        le_u16(data, 2) as int
    } else {
        0
    }
}

/// The place in the tile table that a record points at.
pub open spec fn record_index(record: u32) -> int {
    (((record >> 12) & 0xFFF) * 1024 + (record & 0xFFF)) as int
}

/// The tile id that a record carries.
pub open spec fn record_tile(record: u32) -> TileId {
    ((record >> 24) & 0xFF) as u8
}

/// The tile table after the first `count` records from `start` on were
/// laid onto `tiles` one after another; nothing when one of them points
/// past the table's end.
pub open spec fn tiles_after(tiles: Seq<TileId>, data: Seq<u8>, start: int, count: nat) -> Option<
    Seq<TileId>,
>
    decreases count,
{
    if count == 0 {
        Some(tiles)
    } else {
        match tiles_after(tiles, data, start, (count - 1) as nat) {
            None => None,
            Some(before) => {
                let record = le_u32(data, start + 4 * (count - 1));
                if record_index(record) < before.len() {
                    Some(before.update(record_index(record), record_tile(record)))
                } else {
                    None
                }
            },
        }
    }
}

/// The tile table that map data describe: every tile is empty unless a
/// record says otherwise, and of two records for one tile the later
/// counts. Nothing when the data hold no record's first byte or a record
/// points past the table's end.
pub open spec fn tiles_of(data: Seq<u8>) -> Option<Seq<TileId>> {
    let start = tile_data_start(data);
    if start >= data.len() {
        None
    } else {
        tiles_after(
            Seq::new(MAP_TILE_COUNT as nat, |i: int| 0u8),
            data,
            start,
            ((data.len() - start) / 4) as nat,
        )
    }
}

/// Whether a ship cannot pass a tile, doors taken as closed.
pub open spec fn tile_is_solid(tile_id: TileId) -> bool {
    tile_id != 0 && (tile_id < 170 || (tile_id != 220 && 192 <= tile_id <= 240) || (242 <= tile_id
        <= 252))
}

/// Whether a tile is a door.
pub open spec fn tile_is_door(tile_id: TileId) -> bool {
    TILE_ID_FIRST_DOOR <= tile_id <= TILE_ID_LAST_DOOR
}

pub struct TileMap {
    pub checksum: u32,
    pub filename: String,
    pub tiles: Vec<TileId>,
}

impl TileMap {
    /// The table holds one id for every tile of the map.
    pub open spec fn wf(&self) -> bool {
        self.tiles@.len() == MAP_TILE_COUNT
    }

    /// The id of the tile in column `x` of row `y`.
    pub open spec fn spec_tile(&self, x: u16, y: u16) -> TileId {
        self.tiles@[y as int * 1024 + x as int]
    }

    /// Reads a map from the bytes of its file.
    pub fn new(checksum: u32, filename: &str, data: &[u8]) -> (r: Option<TileMap>)
        ensures
            r is Some <==> tiles_of(data@) is Some,
            r is Some ==> {
                &&& r.unwrap().wf()
                &&& r.unwrap().checksum == checksum
                &&& r.unwrap().filename@ == filename@
                &&& r.unwrap().tiles@ == tiles_of(data@).unwrap()
            },
    {
        let len: usize = data.len();
        let mut position: usize = 0;
        if len >= 4 {
            if data[0] == 66 && data[1] == 77 {
                position = read_u16(data, 2) as usize;
            }
        }
        if position >= len {
            return None;
        }
        let start: usize = position;
        let tile_count: usize = (len - start) / 4;
        let mut map = TileMap::empty(checksum, filename);
        let ghost blank = map.tiles@;
        let mut done: usize = 0;
        while done < tile_count
            invariant
                done <= tile_count,
                len == data@.len(),
                start < len,
                tile_count == (len - start) / 4,
                start == tile_data_start(data@),
                blank == Seq::new(MAP_TILE_COUNT as nat, |i: int| 0u8),
                map.wf(),
                map.checksum == checksum,
                map.filename@ == filename@,
                tiles_after(blank, data@, start as int, done as nat) == Some(map.tiles@),
            decreases tile_count - done,
        {
            let tile: u32 = read_u32(data, start + 4 * done);
            let x: u32 = tile & 0xFFF;
            let y: u32 = (tile >> 12) & 0xFFF;
            let tile_id: u8 = #[verifier::truncate]
            (((tile >> 24) & 0xFF) as u8);
            assert(x <= 0xFFF && y <= 0xFFF) by (bit_vector)
                requires
                    x == tile & 0xFFF,
                    y == (tile >> 12) & 0xFFF,
            ;
            let index: usize = (y * 1024 + x) as usize;
            if index >= MAP_TILE_COUNT {
                proof {
                    lemma_tiles_stay_unreadable(
                        blank,
                        data@,
                        start as int,
                        (done + 1) as nat,
                        tile_count as nat,
                    );
                }
                return None;
            }
            map.tiles[index] = tile_id;
            done += 1;
        }
        Some(map)
    }

    /// A map without tiles.
    pub fn empty(checksum: u32, filename: &str) -> (r: TileMap)
        ensures
            r.wf(),
            r.checksum == checksum,
            r.filename@ == filename@,
            r.tiles@ == Seq::new(MAP_TILE_COUNT as nat, |i: int| 0u8),
    {
        let tiles: Vec<TileId> = vec![0u8; MAP_TILE_COUNT];
        TileMap { checksum, filename: filename.to_owned(), tiles }
    }

    pub fn get_tile(&self, x: u16, y: u16) -> (r: TileId)
        requires
            self.wf(),
            y * 1024 + x < MAP_TILE_COUNT,
        ensures
            r == self.spec_tile(x, y),
    {
        let index = TileMap::get_index(x, y);
        self.tiles[index]
    }

    pub fn is_door(&self, x: u16, y: u16) -> (r: bool)
        requires
            self.wf(),
            y * 1024 + x < MAP_TILE_COUNT,
        ensures
            r == tile_is_door(self.spec_tile(x, y)),
    {
        let tile_id = self.get_tile(x, y);
        tile_id >= TILE_ID_FIRST_DOOR && tile_id <= TILE_ID_LAST_DOOR
    }

    /// Whether a ship cannot pass the tile, doors taken as closed.
    pub fn is_solid(&self, x: u16, y: u16) -> (r: bool)
        requires
            self.wf(),
            y * 1024 + x < MAP_TILE_COUNT,
        ensures
            r == tile_is_solid(self.spec_tile(x, y)),
    {
        let tile_id = self.get_tile(x, y);
        if tile_id == 0 {
            return false;
        }
        if tile_id < 170 {
            return true;
        }
        if tile_id == 220 {
            return false;
        }
        if tile_id >= 192 && tile_id <= 240 {
            return true;
        }
        if tile_id >= 242 && tile_id <= 252 {
            return true;
        }
        false
    }

    /// Whether a ship cannot pass the tile, doors taken as open.
    pub fn is_solid_empty_doors(&self, x: u16, y: u16) -> (r: bool)
        requires
            self.wf(),
            y * 1024 + x < MAP_TILE_COUNT,
        ensures
            r == (tile_is_solid(self.spec_tile(x, y)) && !tile_is_door(self.spec_tile(x, y))),
    {
        let tile_id = self.get_tile(x, y);
        if tile_id == 0 {
            return false;
        }
        if tile_id >= TILE_ID_FIRST_DOOR && tile_id <= TILE_ID_LAST_DOOR {
            return false;
        }
        if tile_id < 170 {
            return true;
        }
        if tile_id == 220 {
            return false;
        }
        if tile_id >= 192 && tile_id <= 240 {
            return true;
        }
        if tile_id >= 242 && tile_id <= 252 {
            return true;
        }
        false
    }

    fn get_index(x: u16, y: u16) -> (r: usize)
        ensures
            r == y as int * 1024 + x as int,
    {
        (y as usize) * 1024 + (x as usize)
    }
}

proof fn lemma_tiles_stay_unreadable(
    tiles: Seq<TileId>,
    data: Seq<u8>,
    start: int,
    from: nat,
    to: nat,
)
    requires
        from <= to,
        tiles_after(tiles, data, start, from) is None,
    ensures
        tiles_after(tiles, data, start, to) is None,
    decreases to - from,
{
    if from < to {
        lemma_tiles_stay_unreadable(tiles, data, start, from, (to - 1) as nat);
    }
}

} // verus!

//! Players of the arena and the table that holds them by id.

use crate::clock::ServerTick;
use crate::math::{Position, Velocity};
use crate::ship::Ship;
use std::collections::HashMap;
use vstd::prelude::*;

verus! {

broadcast use vstd::std_specs::hash::group_hash_axioms;

/// Bits of a player's status byte.
pub const STATUS_STEALTH: u8 = 1;

pub const STATUS_CLOAK: u8 = 2;

pub const STATUS_XRADAR: u8 = 4;

pub const STATUS_ANTIWARP: u8 = 8;

pub const STATUS_FLASH: u8 = 16;

pub const STATUS_SAFETY: u8 = 32;

pub const STATUS_UFO: u8 = 64;

pub const STATUS_INERT: u8 = 128;

#[derive(PartialEq, Clone, Copy, Eq, Hash, Structural)]
pub struct PlayerId {
    pub value: u16,
}

impl PlayerId {
    pub fn new(value: u16) -> (r: PlayerId)
        ensures
            r.value == value,
    {
        PlayerId { value }
    }

    /// The id that names no player.
    pub fn invalid() -> (r: PlayerId)
        ensures
            r.value == 0xFFFF,
    {
        PlayerId::new(0xFFFF)
    }
}

impl vstd::std_specs::convert::FromSpecImpl<u16> for PlayerId {
    open spec fn obeys_from_spec() -> bool {
        true
    }

    open spec fn from_spec(value: u16) -> PlayerId {
        PlayerId { value }
    }
}

impl From<u16> for PlayerId {
    fn from(value: u16) -> (r: PlayerId) {
        PlayerId { value }
    }
}

pub struct Player {
    pub id: PlayerId,
    pub name: String,
    pub squad: String,
    pub ship: Ship,
    pub frequency: u16,
    pub position: Position,
    pub velocity: Velocity,
    pub direction: u8,
    pub bounty: u16,
    pub status: u8,
    pub ping: u8,
    pub attach_parent: PlayerId,
    pub flag_count: u16,
    pub last_position_timestamp: ServerTick,
}

impl Player {
    /// A player who has just entered: at rest at the origin, with no
    /// bounty, no flags, attached to nobody, last seen at tick zero.
    pub open spec fn is_fresh(
        &self,
        id: PlayerId,
        name: Seq<char>,
        squad: Seq<char>,
        ship: Ship,
        frequency: u16,
    ) -> bool {
        &&& self.id == id
        &&& self.name@ == name
        &&& self.squad@ == squad
        &&& self.ship == ship
        &&& self.frequency == frequency
        &&& self.position == (Position { x: 0, y: 0 })
        &&& self.velocity == (Velocity { x: 0, y: 0 })
        &&& self.direction == 0
        &&& self.bounty == 0
        &&& self.status == 0
        &&& self.ping == 0
        &&& self.attach_parent.value == 0xFFFF
        &&& self.flag_count == 0
        &&& self.last_position_timestamp.spec_value() == 0
    }

    pub fn new(id: PlayerId, name: &str, squad: &str, ship: Ship, frequency: u16) -> (r: Self)
        ensures
            r.is_fresh(id, name@, squad@, ship, frequency),
    {
        Self {
            id,
            name: name.to_owned(),
            squad: squad.to_owned(),
            position: Position::new(0, 0),
            velocity: Velocity::new(0, 0),
            direction: 0,
            ship,
            frequency,
            bounty: 0,
            status: 0,
            ping: 0,
            attach_parent: PlayerId::invalid(),
            flag_count: 0,
            last_position_timestamp: ServerTick::empty(),
        }
    }
}

/// `HashMap::get_mut` on the player table: a reference into the entry
/// stored under `k`, through which that entry alone changes; nothing when
/// the key is absent, and then the table stays as it is.
#[verifier::external_body]
fn table_entry_mut<'a>(m: &'a mut HashMap<u16, Player>, k: u16) -> (result: Option<&'a mut Player>)
    ensures
        match result {
            Some(v) => old(m)@.contains_key(k) && *v == old(m)@[k] && final(m)@ == old(m)@.insert(
                k,
                *final(v),
            ),
            None => !old(m)@.contains_key(k) && final(m)@ == old(m)@,
        },
{
    m.get_mut(&k)
}

/// The players present in the arena, by the number of their id.
pub struct PlayerManager {
    pub players: HashMap<u16, Player>,
}

impl PlayerManager {
    /// The table as a map from id number to player.
    pub open spec fn view(&self) -> Map<u16, Player> {
        self.players@
    }

    /// Every player is filed under the number of their own id.
    pub open spec fn wf(&self) -> bool {
        forall|k: u16| #[trigger] self@.contains_key(k) ==> self@[k].id.value == k
    }

    pub fn new() -> (r: Self)
        ensures
            r@ == Map::<u16, Player>::empty(),
            r.wf(),
    {
        Self { players: HashMap::new() }
    }

    pub fn get(&self, id: &PlayerId) -> (r: Option<&Player>)
        ensures
            r is Some <==> self@.contains_key(id.value),
            r is Some ==> *r.unwrap() == self@[id.value],
    {
        self.players.get(&id.value)
    }

    pub fn get_mut(&mut self, id: &PlayerId) -> (r: Option<&mut Player>)
        ensures
            r is Some <==> old(self)@.contains_key(id.value),
            r is Some ==> *r.unwrap() == old(self)@[id.value] && final(self)@ == old(self)@.insert(
                id.value,
                *final(r.unwrap()),
            ),
            r is None ==> final(self)@ == old(self)@,
    {
        table_entry_mut(&mut self.players, id.value)
    }

    /// Files `player` under their id. A player already filed under that id
    /// is displaced and handed back.
    pub fn add_player(&mut self, player: Player) -> (r: Option<Player>)
        ensures
            final(self)@ == old(self)@.insert(player.id.value, player),
            r is Some <==> old(self)@.contains_key(player.id.value),
            r is Some ==> r.unwrap() == old(self)@[player.id.value],
            old(self).wf() ==> final(self).wf(),
    {
        self.players.insert(player.id.value, player)
    }

    /// Takes the player with this id out of the table and hands them back.
    pub fn remove_player(&mut self, id: &PlayerId) -> (r: Option<Player>)
        ensures
            final(self)@ == old(self)@.remove(id.value),
            r is Some <==> old(self)@.contains_key(id.value),
            r is Some ==> r.unwrap() == old(self)@[id.value],
            old(self).wf() ==> final(self).wf(),
    {
        self.players.remove(&id.value)
    }
}

} // verus!

//! The session: what the client keeps of the arena, and what every
//! message from the server does to it.
//!
//! The session owns no socket, no clock and no disk. The embedder hands
//! it the messages that the connection delivers, together with the local
//! tick, and carries out the events that come back: packets to put on
//! the wire, a map file to read or write, a security challenge to answer.

use crate::arena_settings::ArenaSettings;
use crate::checksum::{crc32, crc32_of};
use crate::clock::{mini_delta, tick_diff, tick_wrap, LocalTick, ServerTick};
use crate::map::{tiles_of, TileMap};
use crate::math::{Position, Velocity};
use crate::codec::{u16_bytes, u32_bytes};
use crate::net::connection::{
    reliable_pieces, wires, Connection, ConnectionState, SendError,
};
use crate::net::packet::fixed_width;
use vstd::utf8::encode_utf8;
use crate::net::packet::bi::{DisconnectMessage, SyncRequestMessage};
use crate::net::packet::c2s::{
    ArenaJoinMessage, ArenaRequest, MapRequestMessage, PasswordMessage, PositionMessage,
    RegistrationFormMessage, SecurityMessage, SendChatMessage,
};
use crate::net::packet::s2c::{
    CompressedMapMessage, CoreServerMessage, GameServerMessage, LargePositionMessage, LoginResponse,
    MapInformationMessage, PasswordResponseMessage, PlayerDeathMessage, PlayerEntering,
    PlayerEnteringMessage, ServerMessage, SmallPositionMessage, SynchronizationRequestMessage,
};
use crate::net::packet::{Packet, Serialize};
use crate::player::{Player, PlayerId, PlayerManager};
use crate::ship::Ship;
use vstd::prelude::*;
use vstd::string::StringExecFns;

verus! {

/// Ticks without a position packet after which one is sent to keep the
/// server's view of the player alive.
pub const POSITION_KEEPALIVE: i32 = 300;

/// Size of the buffer that a registration form is sent in.
pub const REGISTRATION_PACKET_SIZE: usize = 766;

/// The machine id that the login announces.
pub const LOGIN_MACHINE_ID: u32 = 0x1231241;

/// The time zone bias that the login announces.
pub const LOGIN_TIMEZONE: u16 = 240;

/// The client version that the login announces.
pub const LOGIN_VERSION: u16 = 0x86;

/// The permission id that the login announces.
pub const LOGIN_PERMISSION_ID: u32 = 123412;

/// What the embedder has to do, or may want to know, after a message.
pub enum SessionEvent {
    /// Put this sealed packet on the wire.
    Send(Packet),
    /// A player with this id entered the arena.
    PlayerEntered(u16),
    /// This player left the arena, or was displaced by a newcomer with
    /// the same id.
    PlayerLeft(Player),
    /// Read the cached map at this path and hand it to `map_file_read`,
    /// or hand it nothing when there is no such file.
    ReadMap(String),
    /// Store these bytes as the map at this path.
    WriteMap(String, Vec<u8>),
    /// The server asks for checksums under this key: hand them to
    /// `answer_security_challenge`.
    SecurityChallenge(u32),
    /// The server refused the login with this response.
    LoginRejected(LoginResponse),
    /// The map that arrived could not be inflated.
    MapInflateFailed,
}

/// Where the map `filename` of `zone` is cached: the two names behind
/// `zones/`, with a slash between them.
pub fn get_zone_path(zone: &str, filename: &str) -> (r: String)
    ensures
        r@ == "zones/"@ + zone@ + "/"@ + filename@,
{
    let mut path = String::from_str("zones/");
    path.append(zone);
    path.append("/");
    path.append(filename);
    path
}

pub struct Client {
    pub connection: Connection,
    pub map: TileMap,
    pub settings: Option<Box<ArenaSettings>>,
    pub last_position_tick: LocalTick,
    pub player_manager: PlayerManager,
    pub username: String,
    pub password: String,
    pub zone: String,
    pub registration: RegistrationFormMessage,
}

/// What an outside call of `miniz_oxide::inflate::decompress_to_vec_zlib`
/// makes of its input: the inflated bytes, or nothing when the input is
/// no zlib stream.
pub uninterp spec fn inflated(input: Seq<u8>) -> Option<Seq<u8>>;

/// `miniz_oxide::inflate::decompress_to_vec_zlib`: inflates a zlib
/// stream; the outcome depends on the input alone.
#[verifier::external_body]
fn inflate_zlib(input: &[u8]) -> (r: Option<Vec<u8>>)
    ensures
        r is Some <==> inflated(input@) is Some,
        r is Some ==> r.unwrap()@ == inflated(input@).unwrap(),
{
    match miniz_oxide::inflate::decompress_to_vec_zlib(input) {
        Ok(bytes) => Some(bytes),
        Err(_) => None,
    }
}

/// The login on the wire.
pub open spec fn login_wire(username: Seq<char>, password: Seq<char>, new_user: bool) -> Seq<u8> {
    seq![0x09u8, if new_user { 1u8 } else { 0u8 }] + fixed_width(encode_utf8(username), 32)
        + fixed_width(encode_utf8(password), 32) + u32_bytes(LOGIN_MACHINE_ID) + seq![0x04u8]
        + u16_bytes(LOGIN_TIMEZONE) + u16_bytes(0) + u16_bytes(LOGIN_VERSION) + u16_bytes(444)
        + u16_bytes(14) + u32_bytes(555) + u32_bytes(LOGIN_PERMISSION_ID) + u32_bytes(0)
        + u32_bytes(0) + u32_bytes(0)
}

/// The request to join any public arena as a spectator, on the wire.
pub open spec fn arena_join_wire() -> Seq<u8> {
    seq![0x01u8, 8u8] + u16_bytes(1) + u16_bytes(1920) + u16_bytes(1080) + u16_bytes(0xFFFF)
        + Seq::new(16, |i: int| 0u8)
}

/// The sync request that follows the login, on the wire.
pub open spec fn sync_request_wire(now: u32) -> Seq<u8> {
    seq![0x00u8, 0x05u8] + u32_bytes(now) + u32_bytes(2) + u32_bytes(2)
}

/// The public chat line that asks for the arena list, on the wire.
pub open spec fn arena_list_wire() -> Seq<u8> {
    seq![0x06u8, 2u8, 0u8] + u16_bytes(0) + encode_utf8("?arena"@).push(0u8)
}

/// The buffer that a registration form goes out in: the form, then zeros
/// up to 766 bytes.
pub open spec fn registration_buffer(form: Seq<u8>) -> Seq<u8> {
    Seq::new(
        REGISTRATION_PACKET_SIZE as nat,
        |i: int|
            if i < form.len() {
                form[i]
            } else {
                0u8
            },
    )
}

/// The answer to a security challenge, on the wire.
pub open spec fn security_wire(settings_checksum: u32, exe_checksum: u32, level_checksum: u32) -> Seq<
    u8,
> {
    seq![0x1Au8] + u32_bytes(0) + u32_bytes(settings_checksum) + u32_bytes(exe_checksum)
        + u32_bytes(level_checksum) + u32_bytes(0) + u32_bytes(0) + u16_bytes(0) + u16_bytes(0)
        + u16_bytes(0) + u16_bytes(0) + u16_bytes(0) + u16_bytes(0) + u16_bytes(0) + seq![0u8]
}

/// The position packet of a ship at rest at the origin at server tick
/// `timestamp`, before its checksum is set.
pub open spec fn rest_position_wire(timestamp: u32) -> Seq<u8> {
    seq![0x03u8, 0u8] + u32_bytes(timestamp) + crate::codec::i16_bytes(0) + u16_bytes(0) + seq![
        0x00u8,
        0u8,
    ] + u16_bytes(0) + crate::codec::i16_bytes(0) + u16_bytes(0) + u16_bytes(0) + u16_bytes(0)
}

/// The keepalive on the wire: the position at rest with its checksum.
pub open spec fn keepalive_wire(timestamp: u32) -> Seq<u8> {
    rest_position_wire(timestamp).update(
        10,
        crate::checksum::xor_fold(rest_position_wire(timestamp)),
    )
}

/// The bytes of the packets among events; an event that sends nothing
/// counts as no bytes.
pub open spec fn sent_wires(events: Seq<SessionEvent>) -> Seq<Seq<u8>> {
    events.map_values(
        |e: SessionEvent|
            match e {
                SessionEvent::Send(p) => p@,
                _ => Seq::empty(),
            },
    )
}

/// Every event is a packet to send.
pub open spec fn all_sends(events: Seq<SessionEvent>) -> bool {
    forall|i: int| 0 <= i < events.len() ==> (#[trigger] events[i]) is Send
}

/// The events of players entering: for every entry, whoever was displaced
/// leaves, then the newcomer enters.
pub open spec fn entering_events(
    entries: Seq<PlayerEntering>,
    displaced: Seq<Option<Player>>,
) -> Seq<SessionEvent>
    decreases entries.len(),
{
    if entries.len() == 0 || displaced.len() != entries.len() {
        Seq::empty()
    } else {
        let before = entering_events(entries.drop_last(), displaced.drop_last());
        let entered = SessionEvent::PlayerEntered(entries.last().player_id);
        match displaced.last() {
            Some(left) => before.push(SessionEvent::PlayerLeft(left)).push(entered),
            None => before.push(entered),
        }
    }
}

/// The player that a record of a player-entering message describes, as
/// first seen at server tick `seen`.
pub open spec fn is_entrant(player: Player, entry: PlayerEntering, seen: ServerTick) -> bool {
    &&& player.id.value == entry.player_id
    &&& player.name@ == entry.name@
    &&& player.squad@ == entry.squad@
    &&& player.ship == entry.ship
    &&& player.frequency == entry.frequency
    &&& player.position == (Position { x: 0, y: 0 })
    &&& player.velocity == (Velocity { x: 0, y: 0 })
    &&& player.direction == 0
    &&& player.bounty == 0
    &&& player.status == 0
    &&& player.ping == 0
    &&& player.attach_parent.value == entry.attach_parent
    &&& player.flag_count == entry.flag_count
    &&& player.last_position_timestamp.spec_value() == seen.spec_value()
}

/// The tick that a position message was sent at, rebuilt next to the
/// server tick `now`: its 16-bit timestamp made whole, less the ping.
pub open spec fn position_tick(now: u32, timestamp: u16, ping: u8) -> u32 {
    tick_wrap(tick_wrap(now as int - mini_delta(now, timestamp)) as int - ping as int)
}

/// A position sent at tick `sent` is taken only when it is later than
/// the last one taken for the player.
pub open spec fn is_news(player: Player, sent: u32) -> bool {
    tick_diff(player.last_position_timestamp.spec_value(), sent) < 0
}

/// `after` is `before` moved by a small position message sent at `sent`.
pub open spec fn moved_by_small(
    before: Player,
    after: Player,
    m: SmallPositionMessage,
    sent: u32,
) -> bool {
    &&& after.position == (Position { x: m.x as u32, y: m.y as u32 })
    &&& after.velocity == (Velocity { x: m.x_velocity as i32, y: m.y_velocity as i32 })
    &&& after.direction == m.direction
    &&& after.bounty == m.bounty as u16
    &&& after.status == m.status
    &&& after.ping == m.ping
    &&& after.last_position_timestamp.spec_value() == sent
    &&& after.id == before.id
    &&& after.name == before.name
    &&& after.squad == before.squad
    &&& after.ship == before.ship
    &&& after.frequency == before.frequency
    &&& after.attach_parent == before.attach_parent
    &&& after.flag_count == before.flag_count
}

/// `after` is `before` moved by a large position message sent at `sent`.
pub open spec fn moved_by_large(
    before: Player,
    after: Player,
    m: LargePositionMessage,
    sent: u32,
) -> bool {
    &&& after.position == (Position { x: m.x as u32, y: m.y as u32 })
    &&& after.velocity == (Velocity { x: m.x_velocity as i32, y: m.y_velocity as i32 })
    &&& after.direction == m.direction
    &&& after.bounty == m.bounty
    &&& after.status == m.status
    &&& after.ping == m.ping
    &&& after.last_position_timestamp.spec_value() == sent
    &&& after.id == before.id
    &&& after.name == before.name
    &&& after.squad == before.squad
    &&& after.ship == before.ship
    &&& after.frequency == before.frequency
    &&& after.attach_parent == before.attach_parent
    &&& after.flag_count == before.flag_count
}

/// The player table `after` is `before` with at most the player under
/// `id` changed.
pub open spec fn same_but_player(
    before: Map<u16, Player>,
    after: Map<u16, Player>,
    id: u16,
) -> bool {
    &&& after.dom() == before.dom()
    &&& forall|k: u16| k != id && before.contains_key(k) ==> #[trigger] after[k] == before[k]
}

impl Client {
    /// The parts keep their own invariants.
    pub open spec fn wf(&self) -> bool {
        &&& self.connection.wf()
        &&& self.map.wf()
        &&& self.player_manager.wf()
    }

    /// Everything but the player table is as it was.
    pub open spec fn same_but_players(&self, after: &Client) -> bool {
        &&& after.connection == self.connection
        &&& after.map == self.map
        &&& after.settings == self.settings
        &&& after.last_position_tick == self.last_position_tick
        &&& after.username == self.username
        &&& after.password == self.password
        &&& after.zone == self.zone
        &&& after.registration == self.registration
    }

    /// Everything but the connection is as it was.
    pub open spec fn same_but_connection(&self, after: &Client) -> bool {
        &&& after.map == self.map
        &&& after.settings == self.settings
        &&& after.last_position_tick == self.last_position_tick
        &&& after.player_manager == self.player_manager
        &&& after.username == self.username
        &&& after.password == self.password
        &&& after.zone == self.zone
        &&& after.registration == self.registration
    }

    /// A session over `connection` that has seen nothing of the arena
    /// yet.
    pub fn with_connection(
        connection: Connection,
        username: &str,
        password: &str,
        zone: &str,
        registration: RegistrationFormMessage,
        now: LocalTick,
    ) -> (r: Client)
        requires
            connection.wf(),
        ensures
            r.wf(),
            r.connection == connection,
            r.map.checksum == 0,
            r.map.filename@.len() == 0,
            r.settings is None,
            r.last_position_tick == now,
            r.player_manager@ == Map::<u16, Player>::empty(),
            r.username@ == username@,
            r.password@ == password@,
            r.zone@ == zone@,
            r.registration == registration,
    {
        proof {
            reveal_strlit("");
        }
        Client {
            connection,
            map: TileMap::empty(0, ""),
            settings: None,
            last_position_tick: now,
            player_manager: PlayerManager::new(),
            username: username.to_owned(),
            password: password.to_owned(),
            zone: zone.to_owned(),
            registration,
        }
    }

    /// Opens a connection with a fresh client key and a session over it;
    /// the packet is the encryption request to send.
    pub fn new(
        username: &str,
        password: &str,
        zone: &str,
        registration: RegistrationFormMessage,
    ) -> (r: (Client, Packet))
        ensures
            r.0.wf(),
            r.0.connection.is_fresh(r.0.connection.crypt.client_key),
            r.0.settings is None,
            r.0.player_manager@ == Map::<u16, Player>::empty(),
            r.0.username@ == username@,
            r.0.password@ == password@,
            r.0.zone@ == zone@,
            r.0.registration == registration,
            r.1.wf(),
            r.1@ == seq![0x00u8, 0x01u8] + crate::codec::u32_bytes(
                r.0.connection.crypt.client_key,
            ) + crate::codec::u16_bytes(1),
    {
        let (connection, request) = Connection::new();
        let client = Self::with_connection(
            connection,
            username,
            password,
            zone,
            registration,
            LocalTick::now(),
        );
        (client, request)
    }

    /// Takes in the arena settings: they replace those kept so far.
    pub fn handle_arena_settings(&mut self, settings: Box<ArenaSettings>)
        ensures
            final(self).settings == Some(settings),
            final(self).connection == old(self).connection,
            final(self).map == old(self).map,
            final(self).last_position_tick == old(self).last_position_tick,
            final(self).player_manager == old(self).player_manager,
            final(self).username == old(self).username,
            final(self).password == old(self).password,
            final(self).zone == old(self).zone,
            final(self).registration == old(self).registration,
    {
        self.settings = Some(settings);
    }

    /// What one entering player does to the session at server tick `seen`, and who is displaced.
    pub open spec fn admitted(
        &self,
        after: &Client,
        entry: &PlayerEntering,
        seen: ServerTick,
        r: Option<Player>,
    ) -> bool {
        &&& self.same_but_players(after)
        &&& after.player_manager@.dom() == self.player_manager@.dom().insert(entry.player_id)
        &&& is_entrant(after.player_manager@[entry.player_id], *entry, seen)
        &&& forall|k: u16|
            k != entry.player_id && self.player_manager@.contains_key(k)
                ==> #[trigger] after.player_manager@[k] == self.player_manager@[k]
        &&& (r is Some) == self.player_manager@.contains_key(entry.player_id)
        &&& r is Some ==> r.unwrap() == self.player_manager@[entry.player_id]
    }

    /// Takes in one entering player at server tick `seen`: the player is
    /// filed under their id, and whoever was filed there before is handed
    /// back.
    pub fn admit_player(&mut self, entry: &PlayerEntering, seen: ServerTick) -> (r: Option<Player>)
        requires
            old(self).player_manager.wf(),
        ensures
            final(self).player_manager.wf(),
            old(self).admitted(final(self), entry, seen, r),
    {
        let mut player = Player::new(
            PlayerId::new(entry.player_id),
            entry.name.as_str(),
            entry.squad.as_str(),
            entry.ship,
            entry.frequency,
        );
        player.flag_count = entry.flag_count;
        player.attach_parent = PlayerId::new(entry.attach_parent);
        player.last_position_timestamp = seen;
        self.player_manager.add_player(player)
    }

    /// What a leaving player does to the session, and who leaves.
    pub open spec fn dismissed(&self, after: &Client, player_id: u16, r: Option<Player>) -> bool {
        &&& self.same_but_players(after)
        &&& after.player_manager@ == self.player_manager@.remove(player_id)
        &&& (r is Some) == self.player_manager@.contains_key(player_id)
        &&& r is Some ==> r.unwrap() == self.player_manager@[player_id]
    }

    /// Takes in a leaving player: whoever is filed under the id is taken
    /// out and handed back.
    pub fn dismiss_player(&mut self, player_id: u16) -> (r: Option<Player>)
        requires
            old(self).player_manager.wf(),
        ensures
            final(self).player_manager.wf(),
            old(self).dismissed(final(self), player_id, r),
    {
        self.player_manager.remove_player(&PlayerId::new(player_id))
    }

    /// What a position without weapon does to the session at server tick `now`.
    pub open spec fn small_position_applied(
        &self,
        after: &Client,
        m: &SmallPositionMessage,
        now: ServerTick,
    ) -> bool {
        &&& self.same_but_players(after)
        &&& ({
            let id = m.player_id as u16;
            let sent = position_tick(now.spec_value(), m.timestamp, m.ping);
            let before = self.player_manager@;
            let after = after.player_manager@;
            if before.contains_key(id) && is_news(before[id], sent) {
                same_but_player(before, after, id) && moved_by_small(
                    before[id],
                    after[id],
                    *m,
                    sent,
                )
            } else {
                after == before
            }
        })
    }

    /// Takes in a position without weapon at server tick `now`: the
    /// player it names moves if the message is later than the last one
    /// taken for them; a message for nobody, or an old one, changes
    /// nothing.
    pub fn apply_small_position(&mut self, m: &SmallPositionMessage, now: ServerTick)
        requires
            old(self).player_manager.wf(),
        ensures
            final(self).player_manager.wf(),
            old(self).small_position_applied(final(self), m, now),
    {
        let at = ServerTick::from_mini(now, m.timestamp) - (m.ping as i32);
        proof {
            ServerTick::lemma_from_counter(
                tick_wrap(
                    tick_wrap(
                        now.spec_value() as int - mini_delta(now.spec_value(), m.timestamp),
                    ) as int - m.ping as int,
                ),
            );
        }
        let id = PlayerId::new(m.player_id as u16);
        match self.player_manager.get_mut(&id) {
            Some(player) => {
                if player.last_position_timestamp < at {
                    player.position = Position::new(m.x as u32, m.y as u32);
                    player.velocity = Velocity::new(m.x_velocity as i32, m.y_velocity as i32);
                    player.direction = m.direction;
                    player.bounty = m.bounty as u16;
                    player.status = m.status;
                    player.ping = m.ping;
                    player.last_position_timestamp = at;
                }
            },
            None => {},
        }
        proof {
            let before = old(self).player_manager@;
            let after = self.player_manager@;
            if before.contains_key(id.value) {
                assert(after.dom() =~= before.dom());
                if !is_news(before[id.value], at.spec_value()) {
                    assert(after =~= before);
                }
            }
        }
    }

    /// What a position with weapon does to the session at server tick `now`.
    pub open spec fn large_position_applied(
        &self,
        after: &Client,
        m: &LargePositionMessage,
        now: ServerTick,
    ) -> bool {
        &&& self.same_but_players(after)
        &&& ({
            let id = m.player_id;
            let sent = position_tick(now.spec_value(), m.timestamp, m.ping);
            let before = self.player_manager@;
            let after = after.player_manager@;
            if before.contains_key(id) && is_news(before[id], sent) {
                same_but_player(before, after, id) && moved_by_large(
                    before[id],
                    after[id],
                    *m,
                    sent,
                )
            } else {
                after == before
            }
        })
    }

    /// Takes in a position with weapon at server tick `now`: the player
    /// it names moves if the message is later than the last one taken
    /// for them; a message for nobody, or an old one, changes nothing.
    pub fn apply_large_position(&mut self, m: &LargePositionMessage, now: ServerTick)
        requires
            old(self).player_manager.wf(),
        ensures
            final(self).player_manager.wf(),
            old(self).large_position_applied(final(self), m, now),
    {
        let at = ServerTick::from_mini(now, m.timestamp) - (m.ping as i32);
        proof {
            ServerTick::lemma_from_counter(
                tick_wrap(
                    tick_wrap(
                        now.spec_value() as int - mini_delta(now.spec_value(), m.timestamp),
                    ) as int - m.ping as int,
                ),
            );
        }
        let id = PlayerId::new(m.player_id);
        match self.player_manager.get_mut(&id) {
            Some(player) => {
                if player.last_position_timestamp < at {
                    player.position = Position::new(m.x as u32, m.y as u32);
                    player.velocity = Velocity::new(m.x_velocity as i32, m.y_velocity as i32);
                    player.direction = m.direction;
                    player.bounty = m.bounty;
                    player.status = m.status;
                    player.ping = m.ping;
                    player.last_position_timestamp = at;
                }
            },
            None => {},
        }
        proof {
            let before = old(self).player_manager@;
            let after = self.player_manager@;
            if before.contains_key(id.value) {
                assert(after.dom() =~= before.dom());
                if !is_news(before[id.value], at.spec_value()) {
                    assert(after =~= before);
                }
            }
        }
    }

    /// What a death does to the session.
    pub open spec fn death_applied(&self, after: &Client, m: &PlayerDeathMessage) -> bool {
        &&& self.same_but_players(after)
        &&& ({
            let before = self.player_manager@;
            let after = after.player_manager@;
            if before.contains_key(m.killer_id) {
                same_but_player(before, after, m.killer_id) && after[m.killer_id] == (Player {
                    flag_count: ((before[m.killer_id].flag_count + m.flag_transfer)
                        % 65536) as u16,
                    ..before[m.killer_id]
                })
            } else {
                after == before
            }
        })
    }

    /// Takes in a death: the flags that the victim carried go to the
    /// killer, if the killer is known; the count wraps at 16 bits.
    pub fn apply_death(&mut self, m: &PlayerDeathMessage)
        requires
            old(self).player_manager.wf(),
        ensures
            final(self).player_manager.wf(),
            old(self).death_applied(final(self), m),
    {
        let id = PlayerId::new(m.killer_id);
        match self.player_manager.get_mut(&id) {
            Some(killer) => {
                killer.flag_count = killer.flag_count.wrapping_add(m.flag_transfer);
            },
            None => {},
        }
        proof {
            if old(self).player_manager@.contains_key(id.value) {
                assert(self.player_manager@.dom() =~= old(self).player_manager@.dom());
            }
        }
    }

    /// What a change of team or ship does to the session.
    pub open spec fn assignment_applied(
        &self,
        after: &Client,
        player_id: u16,
        frequency: u16,
        ship: Option<Ship>,
    ) -> bool {
        &&& self.same_but_players(after)
        &&& ({
            let before = self.player_manager@;
            let after = after.player_manager@;
            if before.contains_key(player_id) {
                same_but_player(before, after, player_id) && after[player_id] == (Player {
                    frequency,
                    ship: match ship {
                        Some(new_ship) => new_ship,
                        None => before[player_id].ship,
                    },
                    ..before[player_id]
                })
            } else {
                after == before
            }
        })
    }

    /// Takes in a change of team, and of ship when one is given: the
    /// player it names changes, if known.
    pub fn apply_assignment(&mut self, player_id: u16, frequency: u16, ship: Option<Ship>)
        requires
            old(self).player_manager.wf(),
        ensures
            final(self).player_manager.wf(),
            old(self).assignment_applied(final(self), player_id, frequency, ship),
    {
        let id = PlayerId::new(player_id);
        match self.player_manager.get_mut(&id) {
            Some(player) => {
                player.frequency = frequency;
                match ship {
                    Some(new_ship) => {
                        player.ship = new_ship;
                    },
                    None => {},
                }
            },
            None => {},
        }
        proof {
            if old(self).player_manager@.contains_key(id.value) {
                assert(self.player_manager@.dom() =~= old(self).player_manager@.dom());
            }
        }
    }

    /// The state a login's answer is taken in: a registration that was
    /// under way is over.
    pub open spec fn settled_state(&self) -> ConnectionState {
        if self.connection.state == ConnectionState::Registering {
            ConnectionState::Authentication
        } else {
            self.connection.state
        }
    }

    /// `state` moved on to `next` if it is `from`.
    pub open spec fn advance(
        state: ConnectionState,
        from: ConnectionState,
        next: ConnectionState,
    ) -> ConnectionState {
        if state == from {
            next
        } else {
            state
        }
    }

    /// What the server's key does to the session at `now`: the login goes
    /// out reliably, and a sync request after it.
    pub open spec fn encryption_answered(
        &self,
        after: &Client,
        now: LocalTick,
        events: Seq<SessionEvent>,
    ) -> bool {
        &&& self.same_but_connection(after)
        &&& events.len() == 2
        &&& events[0] matches SessionEvent::Send(login) && events[1] matches SessionEvent::Send(
            sync,
        ) && {
            &&& self.connection.sent_reliably(
                &after.connection,
                login_wire(self.username@, self.password@, false),
                now,
                Ok::<Packet, SendError>(login),
            )
            &&& sync.wf()
            &&& sync@ == after.connection.sealed(sync_request_wire(now.spec_value()))
        }
    }

    /// Answers the server's key: logs in and asks for a clock sync.
    pub fn handle_encryption_response(&mut self, now: LocalTick) -> (events: Vec<SessionEvent>)
        requires
            old(self).wf(),
        ensures
            final(self).wf(),
            old(self).encryption_answered(final(self), now, events@),
    {
        let mut events: Vec<SessionEvent> = Vec::new();
        let login = PasswordMessage::new(
            self.username.as_str(),
            self.password.as_str(),
            false,
            LOGIN_MACHINE_ID,
            LOGIN_TIMEZONE,
            LOGIN_VERSION,
            LOGIN_PERMISSION_ID,
        );
        assert(login.wire() =~= login_wire(self.username@, self.password@, false));
        match self.connection.send_reliable(&login, now) {
            Ok(packet) => {
                events.push(SessionEvent::Send(packet));
            },
            Err(_) => {},
        }
        let sync_request = SyncRequestMessage::at(now, 2, 2);
        match self.connection.send(&sync_request) {
            Ok(packet) => {
                events.push(SessionEvent::Send(packet));
            },
            Err(_) => {},
        }
        events
    }

    /// What the server's verdict on the login does to the session at
    /// `now`. A registration under way is over. An accepted login moves
    /// authentication on to the arena login, and the request to join an
    /// arena goes out. An unregistered name either sends the registration
    /// form and moves authentication on to registering, when the server
    /// asks for the form, or logs in again as a new user. Any other
    /// verdict disconnects.
    pub open spec fn login_answered(
        &self,
        after: &Client,
        response: &PasswordResponseMessage,
        now: LocalTick,
        events: Seq<SessionEvent>,
    ) -> bool {
        let settled = self.settled_state();
        &&& self.same_but_connection(after)
        &&& match response.response {
            LoginResponse::Okay => {
                &&& events.len() == 1
                &&& events[0] matches SessionEvent::Send(join)
                    && self.connection.in_state(
                    Self::advance(
                        settled,
                        ConnectionState::Authentication,
                        ConnectionState::ArenaLogin,
                    ),
                ).sent_reliably(
                    &after.connection,
                    arena_join_wire(),
                    now,
                    Ok::<Packet, SendError>(join),
                )
            },
            LoginResponse::Unregistered => if response.registration_request {
                &&& all_sends(events)
                &&& self.connection.in_state(
                    Self::advance(
                        settled,
                        ConnectionState::Authentication,
                        ConnectionState::Registering,
                    ),
                ).sent_all(
                    &after.connection,
                    reliable_pieces(registration_buffer(self.registration.wire())),
                    now,
                    sent_wires(events),
                )
            } else {
                &&& events.len() == 1
                &&& events[0] matches SessionEvent::Send(login) && self.connection.in_state(
                    settled,
                ).sent_reliably(
                    &after.connection,
                    login_wire(self.username@, self.password@, true),
                    now,
                    Ok::<Packet, SendError>(login),
                )
            },
            rejected => {
                &&& after.connection == self.connection.in_state(ConnectionState::Disconnected)
                &&& events.len() == 1
                &&& events[0] matches SessionEvent::LoginRejected(why) && why == rejected
            },
        }
    }

    /// Takes in the server's verdict on the login.
    pub fn handle_password_response(&mut self, response: &PasswordResponseMessage, now: LocalTick) -> (events:
        Vec<SessionEvent>)
        requires
            old(self).wf(),
        ensures
            final(self).wf(),
            old(self).login_answered(final(self), response, now, events@),
    {
        let mut events: Vec<SessionEvent> = Vec::new();
        if self.connection.state == ConnectionState::Registering {
            self.connection.state = ConnectionState::Authentication;
        }
        match response.response {
            LoginResponse::Okay => {
                if self.connection.state == ConnectionState::Authentication {
                    self.connection.state = ConnectionState::ArenaLogin;
                }
                let join = ArenaJoinMessage::new(
                    Ship::Spectator,
                    1920,
                    1080,
                    ArenaRequest::AnyPublic,
                );
                assert(join.wire() =~= arena_join_wire());
                match self.connection.send_reliable(&join, now) {
                    Ok(packet) => {
                        events.push(SessionEvent::Send(packet));
                    },
                    Err(_) => {},
                }
            },
            LoginResponse::Unregistered => {
                if response.registration_request {
                    if self.connection.state == ConnectionState::Authentication {
                        self.connection.state = ConnectionState::Registering;
                    }
                    let mut buffer: Vec<u8> = vec![0u8; REGISTRATION_PACKET_SIZE];
                    let ghost blank = buffer@;
                    self.registration.serialize(buffer.as_mut_slice());
                    proof {
                        let form = self.registration.wire();
                        assert forall|i: int| 0 <= i < 766 implies buffer@[i]
                            == registration_buffer(form)[i] by {
                            if i < 165 {
                            } else {
                                assert(blank[i] == blank.subrange(165, 766)[i - 165]);
                            }
                        }
                        assert(buffer@ =~= registration_buffer(form));
                    }
                    match self.connection.send_reliable_data(buffer.as_slice(), now) {
                        Ok(packets) => {
                            events = Self::sends(packets);
                        },
                        Err(_) => {},
                    }
                } else {
                    let login = PasswordMessage::new(
                        self.username.as_str(),
                        self.password.as_str(),
                        true,
                        LOGIN_MACHINE_ID,
                        LOGIN_TIMEZONE,
                        LOGIN_VERSION,
                        LOGIN_PERMISSION_ID,
                    );
                    assert(login.wire() =~= login_wire(self.username@, self.password@, true));
                    match self.connection.send_reliable(&login, now) {
                        Ok(packet) => {
                            events.push(SessionEvent::Send(packet));
                        },
                        Err(_) => {},
                    }
                }
            },
            rejected => {
                self.connection.state = ConnectionState::Disconnected;
                events.push(SessionEvent::LoginRejected(rejected));
            },
        }
        events
    }

    fn sends(packets: Vec<Packet>) -> (events: Vec<SessionEvent>)
        ensures
            all_sends(events@),
            sent_wires(events@) == wires(packets@),
    {
        let mut events: Vec<SessionEvent> = Vec::new();
        let count: usize = packets.len();
        let mut i: usize = 0;
        while i < count
            invariant
                i <= count,
                count == packets@.len(),
                events@.len() == i,
                forall|j: int|
                    0 <= j < i ==> ((#[trigger] events@[j]) matches SessionEvent::Send(p) && p
                        == packets@[j]),
            decreases count - i,
        {
            events.push(SessionEvent::Send(packets[i]));
            i += 1;
        }
        events
    }

    /// What a security challenge asks of the embedder: an answer, when
    /// the key is not zero, a map is known by its checksum and the arena
    /// settings have arrived; nothing otherwise.
    pub open spec fn challenge_events(
        &self,
        sync: &SynchronizationRequestMessage,
        events: Seq<SessionEvent>,
    ) -> bool {
        if sync.checksum_key != 0 && self.map.checksum != 0 && self.settings is Some {
            &&& events.len() == 1
            &&& events[0] matches SessionEvent::SecurityChallenge(key) && key == sync.checksum_key
        } else {
            events.len() == 0
        }
    }

    /// Takes in a synchronization request.
    pub fn handle_synchronization_request(&self, sync: &SynchronizationRequestMessage) -> (events:
        Vec<SessionEvent>)
        ensures
            self.challenge_events(sync, events@),
    {
        let mut events: Vec<SessionEvent> = Vec::new();
        if sync.checksum_key != 0 && self.map.checksum != 0 && self.settings.is_some() {
            events.push(SessionEvent::SecurityChallenge(sync.checksum_key));
        }
        events
    }

    /// Answers a security challenge with the three checksums asked for:
    /// the answer goes out reliably.
    pub fn answer_security_challenge(
        &mut self,
        settings_checksum: u32,
        exe_checksum: u32,
        level_checksum: u32,
        now: LocalTick,
    ) -> (r: Result<Packet, SendError>)
        requires
            old(self).wf(),
        ensures
            final(self).wf(),
            old(self).same_but_connection(final(self)),
            old(self).connection.sent_reliably(
                &final(self).connection,
                security_wire(settings_checksum, exe_checksum, level_checksum),
                now,
                r,
            ),
    {
        let response = SecurityMessage::new(0, settings_checksum, exe_checksum, level_checksum);
        self.connection.send_reliable(&response, now)
    }

    /// Whether a keepalive is due at `now`: while playing, once more than
    /// 300 ticks have passed since the last position went out.
    pub open spec fn keepalive_due(&self, now: LocalTick) -> bool {
        self.connection.state == ConnectionState::Playing && tick_diff(
            now.spec_value(),
            self.last_position_tick.spec_value(),
        ) > POSITION_KEEPALIVE
    }

    /// Sends a position at rest when a keepalive is due, stamped with the
    /// server tick of `now`, and remembers `now` as the tick of the last
    /// position.
    pub fn position_keepalive(&mut self, now: LocalTick) -> (r: Option<Packet>)
        requires
            old(self).wf(),
        ensures
            final(self).wf(),
            final(self).connection == old(self).connection,
            final(self).map == old(self).map,
            final(self).settings == old(self).settings,
            final(self).player_manager == old(self).player_manager,
            final(self).username == old(self).username,
            final(self).password == old(self).password,
            final(self).zone == old(self).zone,
            final(self).registration == old(self).registration,
            !old(self).keepalive_due(now) ==> r is None && final(self).last_position_tick == old(self).last_position_tick,
            old(self).keepalive_due(now) ==> {
                &&& final(self).last_position_tick == now
                &&& r is Some
                &&& r.unwrap().wf()
                &&& r.unwrap()@ == old(self).connection.sealed(
                    keepalive_wire(
                        tick_wrap(now.spec_value() as int + old(self).connection.tick_diff as int),
                    ),
                )
            },
    {
        if self.connection.state == ConnectionState::Playing && now.diff(&self.last_position_tick)
            > POSITION_KEEPALIVE {
            let position = PositionMessage::at_rest(self.connection.server_tick_at(now));
            let sent = self.connection.send(&position);
            self.last_position_tick = now;
            match sent {
                Ok(packet) => Some(packet),
                Err(_) => None,
            }
        } else {
            None
        }
    }

    /// The disconnect order that ends the session, sealed for the wire.
    pub fn disconnect(&mut self) -> (r: Packet)
        requires
            old(self).wf(),
        ensures
            *final(self) == *old(self),
            r.wf(),
            r@ == old(self).connection.sealed(seq![0x00u8, 0x07u8]),
    {
        let order = DisconnectMessage {  };
        match self.connection.send(&order) {
            Ok(packet) => packet,
            Err(_) => Packet::empty(),
        }
    }

    /// The parts of the session that no map message touches are as they
    /// were.
    pub open spec fn same_but_map_and_connection(&self, after: &Client) -> bool {
        &&& after.settings == self.settings
        &&& after.player_manager == self.player_manager
        &&& after.username == self.username
        &&& after.password == self.password
        &&& after.zone == self.zone
        &&& after.registration == self.registration
    }

    /// What the announcement of the arena's map does to the session at
    /// `now`: the map download begins with an empty map of that name and
    /// checksum, the arena list is asked for, and the embedder is asked
    /// to look the map up in its cache.
    pub open spec fn map_announced(
        &self,
        after: &Client,
        info: &MapInformationMessage,
        now: LocalTick,
        events: Seq<SessionEvent>,
    ) -> bool {
        &&& self.same_but_map_and_connection(after)
        &&& after.last_position_tick == self.last_position_tick
        &&& after.map.wf()
        &&& after.map.checksum == info.checksum
        &&& after.map.filename@ == info.filename@
        &&& after.map.tiles@ == Seq::new(crate::map::MAP_TILE_COUNT as nat, |i: int| 0u8)
        &&& events.len() == 2
        &&& events[0] matches SessionEvent::Send(chat) && self.connection.in_state(
            ConnectionState::MapDownload,
        ).sent_reliably(&after.connection, arena_list_wire(), now, Ok::<Packet, SendError>(chat))
        &&& events[1] matches SessionEvent::ReadMap(path) && path@ == "zones/"@ + self.zone@ + "/"@
            + info.filename@
    }

    /// Takes in the announcement of the arena's map.
    pub fn handle_map_information(&mut self, info: &MapInformationMessage, now: LocalTick) -> (events:
        Vec<SessionEvent>)
        requires
            old(self).wf(),
        ensures
            final(self).wf(),
            old(self).map_announced(final(self), info, now, events@),
    {
        let mut events: Vec<SessionEvent> = Vec::new();
        self.connection.state = ConnectionState::MapDownload;
        let chat = SendChatMessage::public("?arena");
        proof {
            reveal_strlit("?arena");
            assert(encode_utf8("?arena"@).len() <= 24) by {
                lemma_encoding_is_short("?arena"@);
            }
        }
        match self.connection.send_reliable(&chat, now) {
            Ok(packet) => {
                events.push(SessionEvent::Send(packet));
            },
            Err(_) => {},
        }
        self.map = TileMap::empty(info.checksum, info.filename.as_str());
        events.push(SessionEvent::ReadMap(get_zone_path(self.zone.as_str(), info.filename.as_str())));
        events
    }

    /// The map after data were read for it: it keeps its name and
    /// checksum, and takes the tiles that the data describe when they
    /// describe any.
    pub open spec fn map_filled(&self, after: &Client, data: Seq<u8>) -> bool {
        &&& after.map.wf()
        &&& after.map.checksum == self.map.checksum
        &&& after.map.filename@ == self.map.filename@
        &&& after.map.tiles@ == (match tiles_of(data) {
            Some(tiles) => tiles,
            None => self.map.tiles@,
        })
    }

    /// What the cache's answer does to a session that downloads a map at
    /// `now`: a file whose CRC-32 is the map's checksum is read in and
    /// the session plays; without such a file the map is asked of the
    /// server. A session that downloads no map takes no notice.
    pub open spec fn cache_consulted(
        &self,
        after: &Client,
        data: Option<Seq<u8>>,
        now: LocalTick,
        events: Seq<SessionEvent>,
    ) -> bool {
        if self.connection.state != ConnectionState::MapDownload {
            *after == *self && events.len() == 0
        } else if data is Some && crc32_of(data.unwrap()) == self.map.checksum {
            &&& self.same_but_map_and_connection(after)
            &&& events.len() == 0
            &&& after.connection == self.connection.in_state(ConnectionState::Playing)
            &&& after.last_position_tick == now
            &&& self.map_filled(after, data.unwrap())
        } else {
            &&& self.same_but_connection(after)
            &&& events.len() == 1
            &&& events[0] matches SessionEvent::Send(request) && self.connection.sent_reliably(
                &after.connection,
                seq![0x0Cu8],
                now,
                Ok::<Packet, SendError>(request),
            )
        }
    }

    /// Takes in what the embedder found in its cache for the map that was
    /// announced: the bytes of the file, or nothing.
    pub fn map_file_read(&mut self, data: Option<&[u8]>, now: LocalTick) -> (events: Vec<
        SessionEvent,
    >)
        requires
            old(self).wf(),
        ensures
            final(self).wf(),
            old(self).cache_consulted(
                final(self),
                match data {
                    Some(bytes) => Some(bytes@),
                    None => None,
                },
                now,
                events@,
            ),
    {
        let mut events: Vec<SessionEvent> = Vec::new();
        if self.connection.state != ConnectionState::MapDownload {
            return events;
        }
        match data {
            Some(bytes) => {
                if crc32(bytes) == self.map.checksum {
                    self.fill_map(bytes);
                    self.connection.state = ConnectionState::Playing;
                    self.last_position_tick = now;
                    return events;
                }
            },
            None => {},
        }
        let request = MapRequestMessage {  };
        match self.connection.send_reliable(&request, now) {
            Ok(packet) => {
                events.push(SessionEvent::Send(packet));
            },
            Err(_) => {},
        }
        events
    }

    fn fill_map(&mut self, data: &[u8])
        requires
            old(self).wf(),
        ensures
            final(self).wf(),
            old(self).map_filled(final(self), data@),
            final(self).connection == old(self).connection,
            final(self).last_position_tick == old(self).last_position_tick,
            old(self).same_but_map_and_connection(final(self)),
    {
        match TileMap::new(self.map.checksum, self.map.filename.as_str(), data) {
            Some(new_map) => {
                self.map = new_map;
            },
            None => {},
        }
    }

    /// What the outcome of inflating a map does to the session at `now`.
    /// Inflated bytes go to the embedder to be stored, are read in as
    /// the map, and end a map download: the session plays. A failure is
    /// reported, the chunk buffer is emptied and the session stays as it
    /// is.
    pub open spec fn map_unpacked(
        &self,
        after: &Client,
        unpacked: Option<Seq<u8>>,
        now: LocalTick,
        events: Seq<SessionEvent>,
    ) -> bool {
        &&& self.same_but_map_and_connection(after)
        &&& match unpacked {
            None => {
                &&& events.len() == 1
                &&& events[0] is MapInflateFailed
                &&& after.map == self.map
                &&& after.last_position_tick == self.last_position_tick
                &&& self.connection.same_session(&after.connection)
                &&& self.connection.sequencer.took_cancel(&after.connection.sequencer)
            },
            Some(bytes) => {
                &&& events.len() == 1
                &&& events[0] matches SessionEvent::WriteMap(path, data) && path@ == "zones/"@
                    + self.zone@ + "/"@ + self.map.filename@ && data@ == bytes
                &&& self.map_filled(after, bytes)
                &&& after.connection == self.connection.in_state(
                    Self::advance(
                        self.connection.state,
                        ConnectionState::MapDownload,
                        ConnectionState::Playing,
                    ),
                )
                &&& after.last_position_tick == (if self.connection.state
                    == ConnectionState::MapDownload {
                    now
                } else {
                    self.last_position_tick
                })
            },
        }
    }

    /// Takes in the outcome of inflating the map that arrived.
    pub fn map_inflated(&mut self, unpacked: Option<Vec<u8>>, now: LocalTick) -> (events: Vec<
        SessionEvent,
    >)
        requires
            old(self).wf(),
        ensures
            final(self).wf(),
            old(self).map_unpacked(
                final(self),
                match unpacked {
                    Some(bytes) => Some(bytes@),
                    None => None,
                },
                now,
                events@,
            ),
    {
        let mut events: Vec<SessionEvent> = Vec::new();
        match unpacked {
            Some(bytes) => {
                let path = get_zone_path(self.zone.as_str(), self.map.filename.as_str());
                self.fill_map(bytes.as_slice());
                if self.connection.state == ConnectionState::MapDownload {
                    self.connection.state = ConnectionState::Playing;
                    self.last_position_tick = now;
                }
                events.push(SessionEvent::WriteMap(path, bytes));
            },
            None => {
                self.connection.sequencer.handle_huge_chunk_cancel();
                events.push(SessionEvent::MapInflateFailed);
            },
        }
        events
    }

    /// What a compressed map does to the session at `now`: a map of
    /// another name than the one awaited is passed over, and the one
    /// awaited is inflated and taken in.
    pub open spec fn map_arrived(
        &self,
        after: &Client,
        compressed: &CompressedMapMessage,
        now: LocalTick,
        events: Seq<SessionEvent>,
    ) -> bool {
        if compressed.filename@ != self.map.filename@ {
            *after == *self && events.len() == 0
        } else {
            self.map_unpacked(after, inflated(compressed.data@), now, events)
        }
    }

    /// Takes in a compressed map.
    pub fn handle_compressed_map(&mut self, compressed: &CompressedMapMessage, now: LocalTick) -> (events:
        Vec<SessionEvent>)
        requires
            old(self).wf(),
        ensures
            final(self).wf(),
            old(self).map_arrived(final(self), compressed, now, events@),
    {
        if compressed.filename != self.map.filename {
            return Vec::new();
        }
        let unpacked = inflate_zlib(compressed.data.as_slice());
        self.map_inflated(unpacked, now)
    }

    /// The sessions `states` are linked by the players of `entries`
    /// entering one after another at server tick `seen`, with `displaced`
    /// naming who made room for each.
    pub open spec fn all_admitted(
        states: Seq<Client>,
        entries: Seq<PlayerEntering>,
        seen: ServerTick,
        displaced: Seq<Option<Player>>,
    ) -> bool {
        &&& states.len() == entries.len() + 1
        &&& displaced.len() == entries.len()
        &&& forall|i: int|
            0 <= i < entries.len() ==> (#[trigger] states[i]).admitted(
                &states[i + 1],
                &entries[i],
                seen,
                displaced[i],
            )
    }

    /// What a message of entering players does to the session at server
    /// tick `seen`: the players enter one after another, each displacing
    /// whoever holds their id, a newcomer of the same message too.
    pub open spec fn entered(
        &self,
        after: &Client,
        entering: &PlayerEnteringMessage,
        seen: ServerTick,
        events: Seq<SessionEvent>,
    ) -> bool {
        &&& self.same_but_players(after)
        &&& exists|states: Seq<Client>, displaced: Seq<Option<Player>>|
            {
                &&& #[trigger] Self::all_admitted(states, entering.players@, seen, displaced)
                &&& states[0] == *self
                &&& states.last() == *after
                &&& events == entering_events(entering.players@, displaced)
            }
    }

    /// Takes in a message of entering players.
    pub fn handle_player_entering(&mut self, entering: &PlayerEnteringMessage, seen: ServerTick) -> (events:
        Vec<SessionEvent>)
        requires
            old(self).player_manager.wf(),
        ensures
            final(self).player_manager.wf(),
            old(self).entered(final(self), entering, seen, events@),
    {
        let mut events: Vec<SessionEvent> = Vec::new();
        let count: usize = entering.players.len();
        let ghost mut states: Seq<Client> = seq![*self];
        let ghost mut displaced: Seq<Option<Player>> = Seq::empty();
        let mut i: usize = 0;
        while i < count
            invariant
                i <= count,
                count == entering.players@.len(),
                self.player_manager.wf(),
                old(self).same_but_players(self),
                Self::all_admitted(states, entering.players@.subrange(0, i as int), seen, displaced),
                states[0] == *old(self),
                states.last() == *self,
                events@ == entering_events(entering.players@.subrange(0, i as int), displaced),
            decreases count - i,
        {
            let ghost past = entering.players@.subrange(0, i as int);
            let entry = &entering.players[i];
            let left = self.admit_player(entry, seen);
            proof {
                let more = entering.players@.subrange(0, i + 1);
                let states_after = states.push(*self);
                let displaced_after = displaced.push(left);
                assert(more.drop_last() =~= past);
                assert(displaced_after.drop_last() =~= displaced);
                assert forall|k: int| 0 <= k < more.len() implies (#[trigger] states_after[k]).admitted(
                    &states_after[k + 1],
                    &more[k],
                    seen,
                    displaced_after[k],
                ) by {
                    if k < i {
                        assert(states[k].admitted(&states[k + 1], &past[k], seen, displaced[k]));
                    }
                }
                states = states_after;
                displaced = displaced_after;
            }
            match left {
                Some(player) => {
                    events.push(SessionEvent::PlayerLeft(player));
                },
                None => {},
            }
            events.push(SessionEvent::PlayerEntered(entry.player_id));
            i += 1;
        }
        assert(entering.players@.subrange(0, count as int) =~= entering.players@);
        events
    }

    /// What a leaving player does to the session, and the event that
    /// tells of it when the player was known.
    pub open spec fn left(
        &self,
        after: &Client,
        player_id: u16,
        events: Seq<SessionEvent>,
    ) -> bool {
        &&& self.same_but_players(after)
        &&& after.player_manager@ == self.player_manager@.remove(player_id)
        &&& if self.player_manager@.contains_key(player_id) {
            events.len() == 1 && events[0] == SessionEvent::PlayerLeft(
                self.player_manager@[player_id],
            )
        } else {
            events.len() == 0
        }
    }

    /// Takes in a leaving player.
    pub fn handle_player_leaving(&mut self, player_id: u16) -> (events: Vec<SessionEvent>)
        requires
            old(self).player_manager.wf(),
        ensures
            final(self).player_manager.wf(),
            old(self).left(final(self), player_id, events@),
    {
        let mut events: Vec<SessionEvent> = Vec::new();
        match self.dismiss_player(player_id) {
            Some(player) => {
                events.push(SessionEvent::PlayerLeft(player));
            },
            None => {},
        }
        events
    }

    /// The server tick that the session takes the local tick `now` for.
    pub open spec fn server_tick_of(&self, now: LocalTick) -> ServerTick {
        ServerTick::spec_from_counter(
            tick_wrap(now.spec_value() as int + self.connection.tick_diff as int),
        )
    }

    /// What a message that the connection delivered does to the session
    /// at `now`, and the events that come of it.
    ///
    /// An encryption response is answered with the login. A password
    /// response settles the login. Arena settings replace those kept. A
    /// synchronization request becomes a security challenge. Players
    /// enter, leave, move, die and change team or ship. A map is
    /// announced or arrives. No other message touches the session.
    pub open spec fn handled(
        &self,
        after: &Client,
        message: ServerMessage,
        now: LocalTick,
        events: Seq<SessionEvent>,
    ) -> bool {
        let seen = self.server_tick_of(now);
        match message {
            ServerMessage::Core(CoreServerMessage::EncryptionResponse(_)) => self.encryption_answered(
                after,
                now,
                events,
            ),
            ServerMessage::Core(_) => *after == *self && events.len() == 0,
            ServerMessage::Game(GameServerMessage::PasswordResponse(m)) => self.login_answered(
                after,
                &m,
                now,
                events,
            ),
            ServerMessage::Game(GameServerMessage::ArenaSettings(settings)) => {
                &&& events.len() == 0
                &&& after.settings == Some(settings)
                &&& self.same_but_settings(after)
            },
            ServerMessage::Game(GameServerMessage::SynchronizationRequest(m)) => {
                &&& *after == *self
                &&& self.challenge_events(&m, events)
            },
            ServerMessage::Game(GameServerMessage::PlayerEntering(m)) => self.entered(
                after,
                &m,
                seen,
                events,
            ),
            ServerMessage::Game(GameServerMessage::PlayerLeaving(m)) => self.left(
                after,
                m.player_id,
                events,
            ),
            ServerMessage::Game(GameServerMessage::SmallPosition(m)) => {
                &&& events.len() == 0
                &&& self.small_position_applied(after, &m, seen)
            },
            ServerMessage::Game(GameServerMessage::LargePosition(m)) => {
                &&& events.len() == 0
                &&& self.large_position_applied(after, &m, seen)
            },
            ServerMessage::Game(GameServerMessage::PlayerDeath(m)) => {
                &&& events.len() == 0
                &&& self.death_applied(after, &m)
            },
            ServerMessage::Game(GameServerMessage::PlayerFrequencyChange(m)) => {
                &&& events.len() == 0
                &&& self.assignment_applied(after, m.player_id, m.frequency, None)
            },
            ServerMessage::Game(GameServerMessage::PlayerTeamAndShipChange(m)) => {
                &&& events.len() == 0
                &&& self.assignment_applied(after, m.player_id, m.frequency, Some(m.ship))
            },
            ServerMessage::Game(GameServerMessage::MapInformation(m)) => self.map_announced(
                after,
                &m,
                now,
                events,
            ),
            ServerMessage::Game(GameServerMessage::CompressedMap(m)) => self.map_arrived(
                after,
                &m,
                now,
                events,
            ),
            ServerMessage::Game(_) => *after == *self && events.len() == 0,
        }
    }

    /// Everything but the settings is as it was.
    pub open spec fn same_but_settings(&self, after: &Client) -> bool {
        &&& after.connection == self.connection
        &&& after.map == self.map
        &&& after.last_position_tick == self.last_position_tick
        &&& after.player_manager == self.player_manager
        &&& after.username == self.username
        &&& after.password == self.password
        &&& after.zone == self.zone
        &&& after.registration == self.registration
    }

    /// Takes in a message that the connection delivered.
    pub fn process_message(&mut self, message: ServerMessage, now: LocalTick) -> (events: Vec<
        SessionEvent,
    >)
        requires
            old(self).wf(),
        ensures
            final(self).wf(),
            old(self).handled(final(self), message, now, events@),
    {
        match message {
            ServerMessage::Core(core_message) => self.process_core_message(core_message, now),
            ServerMessage::Game(game_message) => self.process_game_message(game_message, now),
        }
    }

    /// Takes in a core message that the connection delivered.
    pub fn process_core_message(
        &mut self,
        message: CoreServerMessage,
        now: LocalTick,
    ) -> (events: Vec<SessionEvent>)
        requires
            old(self).wf(),
        ensures
            final(self).wf(),
            old(self).handled(final(self), ServerMessage::Core(message), now, events@),
    {
        match message {
            CoreServerMessage::EncryptionResponse(_) => {
                self.handle_encryption_response(now)
            },
            _ => Vec::new(),
        }
    }

    /// Takes in a game message that the connection delivered.
    pub fn process_game_message(&mut self, message: GameServerMessage, now: LocalTick) -> (events:
        Vec<SessionEvent>)
        requires
            old(self).wf(),
        ensures
            final(self).wf(),
            old(self).handled(final(self), ServerMessage::Game(message), now, events@),
    {
        let seen = self.connection.server_tick_at(now);
        proof {
            ServerTick::lemma_from_counter(
                tick_wrap(now.spec_value() as int + self.connection.tick_diff as int),
            );
            ServerTick::lemma_value_injective(seen, self.server_tick_of(now));
        }
        match message {
            GameServerMessage::PasswordResponse(response) => {
                self.handle_password_response(&response, now)
            },
            GameServerMessage::ArenaSettings(settings) => {
                self.handle_arena_settings(settings);
                Vec::new()
            },
            GameServerMessage::SynchronizationRequest(sync) => {
                self.handle_synchronization_request(&sync)
            },
            GameServerMessage::PlayerEntering(entering) => {
                self.handle_player_entering(&entering, seen)
            },
            GameServerMessage::PlayerLeaving(leaving) => {
                self.handle_player_leaving(leaving.player_id)
            },
            GameServerMessage::SmallPosition(position) => {
                self.apply_small_position(&position, seen);
                Vec::new()
            },
            GameServerMessage::LargePosition(position) => {
                self.apply_large_position(&position, seen);
                Vec::new()
            },
            GameServerMessage::PlayerDeath(death) => {
                self.apply_death(&death);
                Vec::new()
            },
            GameServerMessage::PlayerFrequencyChange(change) => {
                self.apply_assignment(change.player_id, change.frequency, None);
                Vec::new()
            },
            GameServerMessage::PlayerTeamAndShipChange(change) => {
                self.apply_assignment(change.player_id, change.frequency, Some(change.ship));
                Vec::new()
            },
            GameServerMessage::MapInformation(info) => self.handle_map_information(&info, now),
            GameServerMessage::CompressedMap(compressed) => {
                self.handle_compressed_map(&compressed, now)
            },
            _ => Vec::new(),
        }
    }
}

/// A text of at most six characters takes at most 24 bytes.
proof fn lemma_encoding_is_short(text: Seq<char>)
    requires
        text.len() <= 6,
    ensures
        encode_utf8(text).len() <= 4 * text.len(),
    decreases text.len(),
{
    if text.len() > 0 {
        lemma_encoding_is_short(text.drop_first());
    }
}

} // verus!

//! Messages to the server and their layouts on the wire.
//!
//! A game packet starts with its type byte; the encryption request is a
//! core packet and starts with a zero byte. For every message `wire` gives
//! its bytes and `serialize` is proved to produce them.

use crate::checksum::{weapon_checksum, xor_fold};
use crate::clock::ServerTick;
use crate::codec::{i16_bytes, u16_bytes, u32_bytes};
use crate::net::packet::s2c::ChatKind;
use crate::net::packet::{fixed_width, Packet, Serialize, MAX_PACKET_SIZE};
use crate::player::PlayerId;
use crate::ship::Ship;
use crate::weapon::WeaponData;
use vstd::prelude::*;
use vstd::utf8::encode_utf8;

verus! {

/// The client this engine presents itself as, by its version code.
#[derive(Debug, Copy, Clone, PartialEq, Eq, Structural)]
pub enum EncryptionClientVersion {
    Subspace,
    ContinuumClassic,
    Continuum,
}

impl EncryptionClientVersion {
    /// The version code on the wire: `0x01`, `0x10` or `0x11`.
    pub open spec fn spec_code(&self) -> u16 {
        match self {
            EncryptionClientVersion::Subspace => 0x01,
            EncryptionClientVersion::ContinuumClassic => 0x10,
            EncryptionClientVersion::Continuum => 0x11,
        }
    }

    #[verifier::when_used_as_spec(spec_code)]
    pub fn code(&self) -> (r: u16)
        ensures
            r == self.spec_code(),
    {
        match self {
            EncryptionClientVersion::Subspace => 0x01,
            EncryptionClientVersion::ContinuumClassic => 0x10,
            EncryptionClientVersion::Continuum => 0x11,
        }
    }
}

/// Which arena to join.
pub enum ArenaRequest {
    AnyPublic,
    SpecificPublic(u16),
    Name([u8; 16]),
}

impl ArenaRequest {
    /// The arena number on the wire: `0xFFFF` for any public arena,
    /// `0xFFFD` for an arena asked for by name.
    pub open spec fn spec_number(&self) -> u16 {
        match self {
            ArenaRequest::AnyPublic => 0xFFFF,
            ArenaRequest::SpecificPublic(number) => *number,
            ArenaRequest::Name(_) => 0xFFFD,
        }
    }

    /// The sixteen name bytes on the wire: zeros unless a name is asked
    /// for.
    pub open spec fn spec_name(&self) -> Seq<u8> {
        match self {
            ArenaRequest::Name(name) => name@,
            _ => Seq::new(16, |i: int| 0u8),
        }
    }

    #[verifier::when_used_as_spec(spec_number)]
    pub fn number(&self) -> (r: u16)
        ensures
            r == self.spec_number(),
    {
        match self {
            ArenaRequest::AnyPublic => 0xFFFF,
            ArenaRequest::SpecificPublic(number) => *number,
            ArenaRequest::Name(_) => 0xFFFD,
        }
    }

    pub fn name(&self) -> (r: [u8; 16])
        ensures
            r@ == self.spec_name(),
    {
        match self {
            ArenaRequest::Name(name) => *name,
            _ => {
                let zeros: [u8; 16] = [0; 16];
                zeros
            },
        }
    }
}

/// What a client may be caught at.
#[derive(Debug, Copy, Clone, PartialEq, Eq, Structural)]
pub enum SecurityViolation {
    Okay,
    SlowFramerate,
    CurrentEnergyOverflow,
    TopEnergyOverflow,
    UnprizedMaxEnergy,
    TopRechargeOverflow,
    UnprizedMaxRecharge,
    BurstOveruse,
    RepelOveruse,
    DecoyOveruse,
    ThorOveruse,
    BrickOveruse,
    UnprizedStealth,
    UnprizedCloak,
    UnprizedXRadar,
    UnprizedAntiwarp,
    UnprizedProximity,
    UnprizedBouncingBullets,
    UnprizedMaxGuns,
    UnprizedMaxBombs,
    SuperShieldOveruse,
    SavedShipItems,
    SavedShipWeapons,
    LoginChecksum,
    Unknown,
    SavedShipChecksum,
    Softice,
    DataChecksum,
    ParameterMismatch,
    UnknownIntegrity,
    HighLatency,
}

impl SecurityViolation {
    /// The code on the wire: the variants count up from zero, but high
    /// latency is `0x3C`.
    pub open spec fn spec_code(&self) -> u8 {
        match self {
            SecurityViolation::Okay => 0x00,
            SecurityViolation::SlowFramerate => 0x01,
            SecurityViolation::CurrentEnergyOverflow => 0x02,
            SecurityViolation::TopEnergyOverflow => 0x03,
            SecurityViolation::UnprizedMaxEnergy => 0x04,
            SecurityViolation::TopRechargeOverflow => 0x05,
            SecurityViolation::UnprizedMaxRecharge => 0x06,
            SecurityViolation::BurstOveruse => 0x07,
            SecurityViolation::RepelOveruse => 0x08,
            SecurityViolation::DecoyOveruse => 0x09,
            SecurityViolation::ThorOveruse => 0x0a,
            SecurityViolation::BrickOveruse => 0x0b,
            SecurityViolation::UnprizedStealth => 0x0c,
            SecurityViolation::UnprizedCloak => 0x0d,
            SecurityViolation::UnprizedXRadar => 0x0e,
            SecurityViolation::UnprizedAntiwarp => 0x0f,
            SecurityViolation::UnprizedProximity => 0x10,
            SecurityViolation::UnprizedBouncingBullets => 0x11,
            SecurityViolation::UnprizedMaxGuns => 0x12,
            SecurityViolation::UnprizedMaxBombs => 0x13,
            SecurityViolation::SuperShieldOveruse => 0x14,
            SecurityViolation::SavedShipItems => 0x15,
            SecurityViolation::SavedShipWeapons => 0x16,
            SecurityViolation::LoginChecksum => 0x17,
            SecurityViolation::Unknown => 0x18,
            SecurityViolation::SavedShipChecksum => 0x19,
            SecurityViolation::Softice => 0x1a,
            SecurityViolation::DataChecksum => 0x1b,
            SecurityViolation::ParameterMismatch => 0x1c,
            SecurityViolation::UnknownIntegrity => 0x1d,
            SecurityViolation::HighLatency => 0x3c,
        }
    }

    #[verifier::when_used_as_spec(spec_code)]
    pub fn code(&self) -> (r: u8)
        ensures
            r == self.spec_code(),
    {
        match self {
            SecurityViolation::Okay => 0x00,
            SecurityViolation::SlowFramerate => 0x01,
            SecurityViolation::CurrentEnergyOverflow => 0x02,
            SecurityViolation::TopEnergyOverflow => 0x03,
            SecurityViolation::UnprizedMaxEnergy => 0x04,
            SecurityViolation::TopRechargeOverflow => 0x05,
            SecurityViolation::UnprizedMaxRecharge => 0x06,
            SecurityViolation::BurstOveruse => 0x07,
            SecurityViolation::RepelOveruse => 0x08,
            SecurityViolation::DecoyOveruse => 0x09,
            SecurityViolation::ThorOveruse => 0x0a,
            SecurityViolation::BrickOveruse => 0x0b,
            SecurityViolation::UnprizedStealth => 0x0c,
            SecurityViolation::UnprizedCloak => 0x0d,
            SecurityViolation::UnprizedXRadar => 0x0e,
            SecurityViolation::UnprizedAntiwarp => 0x0f,
            SecurityViolation::UnprizedProximity => 0x10,
            SecurityViolation::UnprizedBouncingBullets => 0x11,
            SecurityViolation::UnprizedMaxGuns => 0x12,
            SecurityViolation::UnprizedMaxBombs => 0x13,
            SecurityViolation::SuperShieldOveruse => 0x14,
            SecurityViolation::SavedShipItems => 0x15,
            SecurityViolation::SavedShipWeapons => 0x16,
            SecurityViolation::LoginChecksum => 0x17,
            SecurityViolation::Unknown => 0x18,
            SecurityViolation::SavedShipChecksum => 0x19,
            SecurityViolation::Softice => 0x1a,
            SecurityViolation::DataChecksum => 0x1b,
            SecurityViolation::ParameterMismatch => 0x1c,
            SecurityViolation::UnknownIntegrity => 0x1d,
            SecurityViolation::HighLatency => 0x3c,
        }
    }
}

/// Features beyond those of the first Subspace client that a login may
/// announce.
pub const CLIENT_FEATURE_WATCH_DAMAGE: u16 = 1;

pub const CLIENT_FEATURE_BATCH_POSITIONS: u16 = 2;

pub const CLIENT_FEATURE_WARP_TO: u16 = 4;

pub const CLIENT_FEATURE_LVZ: u16 = 8;

pub const CLIENT_FEATURE_REDIRECT: u16 = 16;

pub const CLIENT_FEATURE_SELECT_BOX: u16 = 32;

/// All the features of the Continuum client.
pub const CLIENT_FEATURE_CONTINUUM: u16 = 63;

/// The features this engine announces: batched positions, warp-to and
/// LVZ.
pub const CLIENT_FEATURES_ANNOUNCED: u16 = 14;

#[derive(Debug, Copy, Clone, PartialEq, Eq, Structural)]
pub enum RegistrationSex {
    Male,
    Female,
}

impl RegistrationSex {
    /// The letter on the wire: `M` or `F`.
    pub open spec fn spec_value(&self) -> u8 {
        match self {
            RegistrationSex::Male => 77,
            RegistrationSex::Female => 70,
        }
    }

    #[verifier::when_used_as_spec(spec_value)]
    pub fn value(&self) -> (r: u8)
        ensures
            r == self.spec_value(),
    {
        match self {
            RegistrationSex::Male => 77,
            RegistrationSex::Female => 70,
        }
    }
}

/// One for true, zero for false.
pub open spec fn flag_byte(b: bool) -> u8 {
    if b {
        1
    } else {
        0
    }
}

fn flag(b: bool) -> (r: u8)
    ensures
        r == flag_byte(b),
{
    if b {
        1
    } else {
        0
    }
}

/// Core message `0x01`: opens the encryption handshake.
pub struct EncryptionRequestMessage {
    pub key: u32,
    pub version: EncryptionClientVersion,
}

impl Serialize for EncryptionRequestMessage {
    open spec fn fits(&self) -> bool {
        true
    }

    open spec fn wire(&self) -> Seq<u8> {
        seq![0x00u8] + seq![0x01u8] + u32_bytes(self.key) + u16_bytes(self.version.spec_code())
    }

    fn serialize(&self) -> (p: Packet) {
        let p = Packet::empty()
            .concat_u8(0x00)
            .concat_u8(0x01)
            .concat_u32(self.key)
            .concat_u16(self.version.code());
        p
    }
}

/// Game message `0x01`.
pub struct ArenaJoinMessage {
    pub ship: Ship,
    pub resolution_x: u16,
    pub resolution_y: u16,
    pub arena_request: ArenaRequest,
}

impl Serialize for ArenaJoinMessage {
    open spec fn fits(&self) -> bool {
        true
    }

    open spec fn wire(&self) -> Seq<u8> {
        seq![0x01u8]
            + seq![self.ship.spec_network_value()]
            + u16_bytes(1u16)
            + u16_bytes(self.resolution_x)
            + u16_bytes(self.resolution_y)
            + u16_bytes(self.arena_request.spec_number())
            + self.arena_request.spec_name()
    }

    fn serialize(&self) -> (p: Packet) {
        let p = Packet::empty()
            .concat_u8(0x01)
            .concat_u8(self.ship.network_value())
            .concat_u16(1)
            .concat_u16(self.resolution_x)
            .concat_u16(self.resolution_y)
            .concat_u16(self.arena_request.number())
            .concat_bytes(self.arena_request.name().as_slice());
        p
    }
}

/// Game message `0x02`.
pub struct LeaveArenaMessage {}

impl Serialize for LeaveArenaMessage {
    open spec fn fits(&self) -> bool {
        true
    }

    open spec fn wire(&self) -> Seq<u8> {
        seq![0x02u8]
    }

    fn serialize(&self) -> (p: Packet) {
        let p = Packet::empty().concat_u8(0x02);
        p
    }
}

/// Game message `0x05`.
pub struct DeathMessage {
    pub killer_id: PlayerId,
    pub bounty: u16,
}

impl Serialize for DeathMessage {
    open spec fn fits(&self) -> bool {
        true
    }

    open spec fn wire(&self) -> Seq<u8> {
        seq![0x05u8] + u16_bytes(self.killer_id.value) + u16_bytes(self.bounty)
    }

    fn serialize(&self) -> (p: Packet) {
        let p = Packet::empty()
            .concat_u8(0x05)
            .concat_u16(self.killer_id.value)
            .concat_u16(self.bounty);
        p
    }
}

/// Game message `0x07`.
pub struct TakePrizeMessage {
    pub timestamp: ServerTick,
    pub x: u16,
    pub y: u16,
    pub prize: i16,
}

impl Serialize for TakePrizeMessage {
    open spec fn fits(&self) -> bool {
        true
    }

    open spec fn wire(&self) -> Seq<u8> {
        seq![0x07u8]
            + u32_bytes(self.timestamp.spec_value())
            + u16_bytes(self.x)
            + u16_bytes(self.y)
            + i16_bytes(self.prize)
    }

    fn serialize(&self) -> (p: Packet) {
        let p = Packet::empty()
            .concat_u8(0x07)
            .concat_u32(self.timestamp.value())
            .concat_u16(self.x)
            .concat_u16(self.y)
            .concat_i16(self.prize);
        p
    }
}

/// Game message `0x08`.
pub struct SpectateMessage {
    pub player_id: PlayerId,
}

impl Serialize for SpectateMessage {
    open spec fn fits(&self) -> bool {
        true
    }

    open spec fn wire(&self) -> Seq<u8> {
        seq![0x08u8] + u16_bytes(self.player_id.value)
    }

    fn serialize(&self) -> (p: Packet) {
        let p = Packet::empty().concat_u8(0x08).concat_u16(self.player_id.value);
        p
    }
}

/// Game message `0x09`: the login.
pub struct PasswordMessage {
    pub new_user: bool,
    pub name: [u8; 32],
    pub password: [u8; 32],
    pub machine_id: u32,
    pub timezone: u16,
    pub version: u16,
    pub permission_id: u32,
}

impl Serialize for PasswordMessage {
    open spec fn fits(&self) -> bool {
        true
    }

    open spec fn wire(&self) -> Seq<u8> {
        seq![0x09u8]
            + seq![flag_byte(self.new_user)]
            + self.name@
            + self.password@
            + u32_bytes(self.machine_id)
            + seq![0x04u8]
            + u16_bytes(self.timezone)
            + u16_bytes(0u16)
            + u16_bytes(self.version)
            + u16_bytes(444u16)
            + u16_bytes(CLIENT_FEATURES_ANNOUNCED)
            + u32_bytes(555u32)
            + u32_bytes(self.permission_id)
            + u32_bytes(0u32)
            + u32_bytes(0u32)
            + u32_bytes(0u32)
    }

    fn serialize(&self) -> (p: Packet) {
        let p = Packet::empty()
            .concat_u8(0x09)
            .concat_u8(flag(self.new_user))
            .concat_bytes(self.name.as_slice())
            .concat_bytes(self.password.as_slice())
            .concat_u32(self.machine_id)
            .concat_u8(0x04)
            .concat_u16(self.timezone)
            .concat_u16(0)
            .concat_u16(self.version)
            .concat_u16(444)
            .concat_u16(CLIENT_FEATURES_ANNOUNCED)
            .concat_u32(555)
            .concat_u32(self.permission_id)
            .concat_u32(0)
            .concat_u32(0)
            .concat_u32(0);
        p
    }
}

/// Game message `0x0B`.
pub struct SubspaceExeRequestMessage {}

impl Serialize for SubspaceExeRequestMessage {
    open spec fn fits(&self) -> bool {
        true
    }

    open spec fn wire(&self) -> Seq<u8> {
        seq![0x0bu8]
    }

    fn serialize(&self) -> (p: Packet) {
        let p = Packet::empty().concat_u8(0x0b);
        p
    }
}

/// Game message `0x0C`.
pub struct MapRequestMessage {}

impl Serialize for MapRequestMessage {
    open spec fn fits(&self) -> bool {
        true
    }

    open spec fn wire(&self) -> Seq<u8> {
        seq![0x0cu8]
    }

    fn serialize(&self) -> (p: Packet) {
        let p = Packet::empty().concat_u8(0x0c);
        p
    }
}

/// Game message `0x0D`.
pub struct NewsRequestMessage {}

impl Serialize for NewsRequestMessage {
    open spec fn fits(&self) -> bool {
        true
    }

    open spec fn wire(&self) -> Seq<u8> {
        seq![0x0du8]
    }

    fn serialize(&self) -> (p: Packet) {
        let p = Packet::empty().concat_u8(0x0d);
        p
    }
}

/// Game message `0x0E`.
pub struct SendVoiceMessage {
    pub index: u8,
    pub player_id: PlayerId,
    pub data: Vec<u8>,
}

impl Serialize for SendVoiceMessage {
    open spec fn fits(&self) -> bool {
        self.data@.len() + 4 <= MAX_PACKET_SIZE
    }

    open spec fn wire(&self) -> Seq<u8> {
        seq![0x0eu8] + seq![self.index] + u16_bytes(self.player_id.value) + self.data@
    }

    fn serialize(&self) -> (p: Packet) {
        let p = Packet::empty()
            .concat_u8(0x0e)
            .concat_u8(self.index)
            .concat_u16(self.player_id.value)
            .concat_bytes(self.data.as_slice());
        p
    }
}

/// Game message `0x0F`.
pub struct FrequencyChangeMessage {
    pub frequency: u16,
}

impl Serialize for FrequencyChangeMessage {
    open spec fn fits(&self) -> bool {
        true
    }

    open spec fn wire(&self) -> Seq<u8> {
        seq![0x0fu8] + u16_bytes(self.frequency)
    }

    fn serialize(&self) -> (p: Packet) {
        let p = Packet::empty().concat_u8(0x0f).concat_u16(self.frequency);
        p
    }
}

/// Game message `0x10`.
pub struct AttachRequestMessage {
    pub player_id: PlayerId,
}

impl Serialize for AttachRequestMessage {
    open spec fn fits(&self) -> bool {
        true
    }

    open spec fn wire(&self) -> Seq<u8> {
        seq![0x10u8] + u16_bytes(self.player_id.value)
    }

    fn serialize(&self) -> (p: Packet) {
        let p = Packet::empty().concat_u8(0x10).concat_u16(self.player_id.value);
        p
    }
}

/// Game message `0x13`.
pub struct FlagRequestMessage {
    pub flag_id: u16,
}

impl Serialize for FlagRequestMessage {
    open spec fn fits(&self) -> bool {
        true
    }

    open spec fn wire(&self) -> Seq<u8> {
        seq![0x13u8] + u16_bytes(self.flag_id)
    }

    fn serialize(&self) -> (p: Packet) {
        let p = Packet::empty().concat_u8(0x13).concat_u16(self.flag_id);
        p
    }
}

/// Game message `0x14`.
pub struct DetachAllRequestMessage {}

impl Serialize for DetachAllRequestMessage {
    open spec fn fits(&self) -> bool {
        true
    }

    open spec fn wire(&self) -> Seq<u8> {
        seq![0x14u8]
    }

    fn serialize(&self) -> (p: Packet) {
        let p = Packet::empty().concat_u8(0x14);
        p
    }
}

/// Game message `0x15`.
pub struct DropFlagsMessage {}

impl Serialize for DropFlagsMessage {
    open spec fn fits(&self) -> bool {
        true
    }

    open spec fn wire(&self) -> Seq<u8> {
        seq![0x15u8]
    }

    fn serialize(&self) -> (p: Packet) {
        let p = Packet::empty().concat_u8(0x15);
        p
    }
}

/// Game message `0x18`.
pub struct RequestShipMessage {
    pub ship: Ship,
}

impl Serialize for RequestShipMessage {
    open spec fn fits(&self) -> bool {
        true
    }

    open spec fn wire(&self) -> Seq<u8> {
        seq![0x18u8] + seq![self.ship.spec_network_value()]
    }

    fn serialize(&self) -> (p: Packet) {
        let p = Packet::empty().concat_u8(0x18).concat_u8(self.ship.network_value());
        p
    }
}

/// Game message `0x19`.
pub struct SetBannerMessage<'a> {
    pub data: &'a [u8; 96],
}

impl<'a> Serialize for SetBannerMessage<'a> {
    open spec fn fits(&self) -> bool {
        true
    }

    open spec fn wire(&self) -> Seq<u8> {
        seq![0x19u8] + self.data@
    }

    fn serialize(&self) -> (p: Packet) {
        let p = Packet::empty().concat_u8(0x19).concat_bytes(self.data.as_slice());
        p
    }
}

/// Game message `0x1A`: the answer to a synchronization request.
pub struct SecurityMessage {
    pub weapon_count: u32,
    pub settings_checksum: u32,
    pub exe_checksum: u32,
    pub level_checksum: u32,
    pub s2c_slow_total: u32,
    pub s2c_fast_total: u32,
    pub s2c_slow_current: u16,
    pub s2c_fast_current: u16,
    pub s2c_reliable_out: u16,
    pub ping: u16,
    pub ping_average: u16,
    pub ping_low: u16,
    pub ping_high: u16,
    pub slow_frame: bool,
}

impl Serialize for SecurityMessage {
    open spec fn fits(&self) -> bool {
        true
    }

    open spec fn wire(&self) -> Seq<u8> {
        seq![0x1au8]
            + u32_bytes(self.weapon_count)
            + u32_bytes(self.settings_checksum)
            + u32_bytes(self.exe_checksum)
            + u32_bytes(self.level_checksum)
            + u32_bytes(self.s2c_slow_total)
            + u32_bytes(self.s2c_fast_total)
            + u16_bytes(self.s2c_slow_current)
            + u16_bytes(self.s2c_fast_current)
            + u16_bytes(self.s2c_reliable_out)
            + u16_bytes(self.ping)
            + u16_bytes(self.ping_average)
            + u16_bytes(self.ping_low)
            + u16_bytes(self.ping_high)
            + seq![flag_byte(self.slow_frame)]
    }

    fn serialize(&self) -> (p: Packet) {
        let p = Packet::empty()
            .concat_u8(0x1a)
            .concat_u32(self.weapon_count)
            .concat_u32(self.settings_checksum)
            .concat_u32(self.exe_checksum)
            .concat_u32(self.level_checksum)
            .concat_u32(self.s2c_slow_total)
            .concat_u32(self.s2c_fast_total)
            .concat_u16(self.s2c_slow_current)
            .concat_u16(self.s2c_fast_current)
            .concat_u16(self.s2c_reliable_out)
            .concat_u16(self.ping)
            .concat_u16(self.ping_average)
            .concat_u16(self.ping_low)
            .concat_u16(self.ping_high)
            .concat_u8(flag(self.slow_frame));
        p
    }
}

/// Game message `0x1B`.
pub struct SecurityViolationMessage {
    pub violation: SecurityViolation,
}

impl Serialize for SecurityViolationMessage {
    open spec fn fits(&self) -> bool {
        true
    }

    open spec fn wire(&self) -> Seq<u8> {
        seq![0x1bu8] + seq![self.violation.spec_code()]
    }

    fn serialize(&self) -> (p: Packet) {
        let p = Packet::empty().concat_u8(0x1b).concat_u8(self.violation.code());
        p
    }
}

/// Game message `0x1C`.
pub struct DropBrickMessage {
    pub x: u16,
    pub y: u16,
}

impl Serialize for DropBrickMessage {
    open spec fn fits(&self) -> bool {
        true
    }

    open spec fn wire(&self) -> Seq<u8> {
        seq![0x1cu8] + u16_bytes(self.x) + u16_bytes(self.y)
    }

    fn serialize(&self) -> (p: Packet) {
        let p = Packet::empty().concat_u8(0x1c).concat_u16(self.x).concat_u16(self.y);
        p
    }
}

/// Game message `0x1E`.
pub struct KothEndMessage {}

impl Serialize for KothEndMessage {
    open spec fn fits(&self) -> bool {
        true
    }

    open spec fn wire(&self) -> Seq<u8> {
        seq![0x1eu8]
    }

    fn serialize(&self) -> (p: Packet) {
        let p = Packet::empty().concat_u8(0x1e);
        p
    }
}

/// Game message `0x1F`.
pub struct PowerballFireMessage {
    pub ball_id: u8,
    pub x: u16,
    pub y: u16,
    pub x_velocity: i16,
    pub y_velocity: i16,
    pub player_id: PlayerId,
    pub timestamp: ServerTick,
}

impl Serialize for PowerballFireMessage {
    open spec fn fits(&self) -> bool {
        true
    }

    open spec fn wire(&self) -> Seq<u8> {
        seq![0x1fu8]
            + seq![self.ball_id]
            + u16_bytes(self.x)
            + u16_bytes(self.y)
            + i16_bytes(self.x_velocity)
            + i16_bytes(self.y_velocity)
            + u16_bytes(self.player_id.value)
            + u32_bytes(self.timestamp.spec_value())
    }

    fn serialize(&self) -> (p: Packet) {
        let p = Packet::empty()
            .concat_u8(0x1f)
            .concat_u8(self.ball_id)
            .concat_u16(self.x)
            .concat_u16(self.y)
            .concat_i16(self.x_velocity)
            .concat_i16(self.y_velocity)
            .concat_u16(self.player_id.value)
            .concat_u32(self.timestamp.value());
        p
    }
}

/// Game message `0x20`.
pub struct PowerballRequestMessage {
    pub ball_id: u8,
    pub timestamp: ServerTick,
}

impl Serialize for PowerballRequestMessage {
    open spec fn fits(&self) -> bool {
        true
    }

    open spec fn wire(&self) -> Seq<u8> {
        seq![0x20u8] + seq![self.ball_id] + u32_bytes(self.timestamp.spec_value())
    }

    fn serialize(&self) -> (p: Packet) {
        let p = Packet::empty()
            .concat_u8(0x20)
            .concat_u8(self.ball_id)
            .concat_u32(self.timestamp.value());
        p
    }
}

/// Game message `0x21`.
pub struct PowerballScoreMessage {
    pub ball_id: u8,
    pub timestamp: ServerTick,
}

impl Serialize for PowerballScoreMessage {
    open spec fn fits(&self) -> bool {
        true
    }

    open spec fn wire(&self) -> Seq<u8> {
        seq![0x21u8] + seq![self.ball_id] + u32_bytes(self.timestamp.spec_value())
    }

    fn serialize(&self) -> (p: Packet) {
        let p = Packet::empty()
            .concat_u8(0x21)
            .concat_u8(self.ball_id)
            .concat_u32(self.timestamp.value());
        p
    }
}

/// Game message `0x22`.
pub struct SecurityViolationExtMessage {
    pub unknown: u32,
    pub settings_checksum: u32,
    pub code_checksum1: u32,
    pub code_checksum2: u32,
    pub violation: SecurityViolation,
}

impl Serialize for SecurityViolationExtMessage {
    open spec fn fits(&self) -> bool {
        true
    }

    open spec fn wire(&self) -> Seq<u8> {
        seq![0x22u8]
            + u32_bytes(self.unknown)
            + u32_bytes(self.settings_checksum)
            + u32_bytes(self.code_checksum1)
            + u32_bytes(self.code_checksum2)
            + seq![self.violation.spec_code()]
    }

    fn serialize(&self) -> (p: Packet) {
        let p = Packet::empty()
            .concat_u8(0x22)
            .concat_u32(self.unknown)
            .concat_u32(self.settings_checksum)
            .concat_u32(self.code_checksum1)
            .concat_u32(self.code_checksum2)
            .concat_u8(self.violation.code());
        p
    }
}

impl EncryptionRequestMessage {
    /// A request that presents the engine as the first Subspace client.
    pub fn new(key: u32) -> (r: Self)
        ensures
            r.key == key,
            r.version == EncryptionClientVersion::Subspace,
    {
        Self { key, version: EncryptionClientVersion::Subspace }
    }
}

impl ArenaJoinMessage {
    pub fn new(ship: Ship, resolution_x: u16, resolution_y: u16, arena_request: ArenaRequest) -> (r:
        Self)
        ensures
            r.ship == ship,
            r.resolution_x == resolution_x,
            r.resolution_y == resolution_y,
            r.arena_request == arena_request,
    {
        Self { ship, resolution_x, resolution_y, arena_request }
    }
}

/// Game message `0x03`: the client's own position. The byte at offset 10
/// is the checksum of the other bytes.
pub struct PositionMessage {
    pub direction: u8,
    pub timestamp: ServerTick,
    pub x_position: u16,
    pub y_position: u16,
    pub x_velocity: i16,
    pub y_velocity: i16,
    pub togglables: u8,
    pub bounty: u16,
    pub energy: u16,
    pub weapon_info: WeaponData,
}

impl PositionMessage {
    /// The 22 bytes of the message with a zero in the checksum's place.
    pub open spec fn unsigned_wire(&self) -> Seq<u8> {
        seq![0x03u8, self.direction] + u32_bytes(self.timestamp.spec_value()) + i16_bytes(
            self.x_velocity,
        ) + u16_bytes(self.y_position) + seq![0x00u8, self.togglables] + u16_bytes(self.x_position)
            + i16_bytes(self.y_velocity) + u16_bytes(self.bounty) + u16_bytes(self.energy)
            + u16_bytes(self.weapon_info.spec_value())
    }

    /// A position at rest at the origin, with nothing set, at `timestamp`.
    pub fn at_rest(timestamp: ServerTick) -> (r: Self)
        ensures
            r.timestamp == timestamp,
            r.direction == 0,
            r.x_position == 0,
            r.y_position == 0,
            r.x_velocity == 0,
            r.y_velocity == 0,
            r.togglables == 0,
            r.bounty == 0,
            r.energy == 0,
            r.weapon_info.spec_value() == 0,
    {
        Self {
            direction: 0,
            timestamp,
            x_position: 0,
            y_position: 0,
            x_velocity: 0,
            y_velocity: 0,
            togglables: 0,
            bounty: 0,
            energy: 0,
            weapon_info: WeaponData::new(0),
        }
    }
}

impl Serialize for PositionMessage {
    open spec fn fits(&self) -> bool {
        true
    }

    open spec fn wire(&self) -> Seq<u8> {
        self.unsigned_wire().update(10, xor_fold(self.unsigned_wire()))
    }

    fn serialize(&self) -> (p: Packet) {
        let mut packet = Packet::empty().concat_u8(0x03).concat_u8(self.direction).concat_u32(
            self.timestamp.value(),
        ).concat_i16(self.x_velocity).concat_u16(self.y_position).concat_u8(0x00).concat_u8(
            self.togglables,
        ).concat_u16(self.x_position).concat_i16(self.y_velocity).concat_u16(
            self.bounty,
        ).concat_u16(self.energy).concat_u16(self.weapon_info.value());
        assert(packet@ =~= self.unsigned_wire());
        let checksum: u8 = weapon_checksum(packet.data());
        packet.data[10] = checksum;
        packet
    }
}

/// Game message `0x06`: a line of chat.
pub struct SendChatMessage<'a> {
    pub kind: ChatKind,
    pub sound: u8,
    pub target_id: PlayerId,
    pub text: &'a str,
}

impl<'a> SendChatMessage<'a> {
    /// A message of `kind` with `text`, for `target`, without sound.
    pub open spec fn is_plain(&self, kind: ChatKind, target: u16, text: Seq<char>) -> bool {
        &&& self.kind == kind
        &&& self.sound == 0
        &&& self.target_id.value == target
        &&& self.text@ == text
    }

    pub fn public(text: &'a str) -> (r: SendChatMessage<'a>)
        ensures
            r.is_plain(ChatKind::Public, 0, text@),
    {
        SendChatMessage { kind: ChatKind::Public, sound: 0, target_id: PlayerId::new(0), text }
    }

    /// A private message; the target must be in the same arena.
    pub fn private(target_id: PlayerId, text: &'a str) -> (r: SendChatMessage<'a>)
        ensures
            r.is_plain(ChatKind::Private, target_id.value, text@),
    {
        SendChatMessage { kind: ChatKind::Private, sound: 0, target_id, text }
    }

    /// A private message to a player elsewhere; the text has the form
    /// `:target:message`.
    pub fn remote_private(text: &'a str) -> (r: SendChatMessage<'a>)
        ensures
            r.is_plain(ChatKind::RemotePrivate, 0, text@),
    {
        SendChatMessage {
            kind: ChatKind::RemotePrivate,
            sound: 0,
            target_id: PlayerId::new(0),
            text,
        }
    }

    pub fn team(text: &'a str) -> (r: SendChatMessage<'a>)
        ensures
            r.is_plain(ChatKind::Team, 0, text@),
    {
        SendChatMessage { kind: ChatKind::Team, sound: 0, target_id: PlayerId::new(0), text }
    }

    /// A message to another team: a team message with the frequency in
    /// the place of the target.
    pub fn frequency(frequency: u16, text: &'a str) -> (r: SendChatMessage<'a>)
        ensures
            r.is_plain(ChatKind::Team, frequency, text@),
    {
        SendChatMessage {
            kind: ChatKind::Team,
            sound: 0,
            target_id: PlayerId::new(frequency),
            text,
        }
    }

    /// A message to a chat channel; the text has the form `1;message`.
    pub fn channel(text: &'a str) -> (r: SendChatMessage<'a>)
        ensures
            r.is_plain(ChatKind::Channel, 0, text@),
    {
        SendChatMessage { kind: ChatKind::Channel, sound: 0, target_id: PlayerId::new(0), text }
    }
}

impl<'a> Serialize for SendChatMessage<'a> {
    open spec fn fits(&self) -> bool {
        encode_utf8(self.text@).len() + 6 <= MAX_PACKET_SIZE
    }

    open spec fn wire(&self) -> Seq<u8> {
        seq![0x06u8, self.kind.spec_wire_value(), self.sound] + u16_bytes(self.target_id.value)
            + encode_utf8(self.text@).push(0u8)
    }

    fn serialize(&self) -> (p: Packet) {
        let p = Packet::empty().concat_u8(0x06).concat_u8(self.kind.wire_value()).concat_u8(
            self.sound,
        ).concat_player_id(self.target_id).concat_str(self.text);
        p
    }
}

fn fixed_text<const N: usize>(text: &str) -> (r: [u8; N])
    ensures
        r@ == fixed_width(encode_utf8(text@), N as int),
{
    let bytes = text.as_bytes();
    let len: usize = bytes.len();
    let mut r: [u8; N] = [0; N];
    let mut i: usize = 0;
    while i < N
        invariant
            i <= N,
            len == bytes@.len(),
            bytes@ == encode_utf8(text@),
            forall|j: int| 0 <= j < i ==> r@[j] == fixed_width(bytes@, N as int)[j],
        decreases N - i,
    {
        r[i] = if i < len {
            bytes[i]
        } else {
            0
        };
        i += 1;
    }
    r
}

impl PasswordMessage {
    /// A login; name and password are cut to 32 bytes, or padded with
    /// zeros to them.
    pub fn new(
        name: &str,
        password: &str,
        new_user: bool,
        machine_id: u32,
        timezone: u16,
        version: u16,
        permission_id: u32,
    ) -> (r: Self)
        ensures
            r.new_user == new_user,
            r.name@ == fixed_width(encode_utf8(name@), 32),
            r.password@ == fixed_width(encode_utf8(password@), 32),
            r.machine_id == machine_id,
            r.timezone == timezone,
            r.version == version,
            r.permission_id == permission_id,
    {
        Self {
            new_user,
            name: fixed_text::<32>(name),
            password: fixed_text::<32>(password),
            machine_id,
            timezone,
            version,
            permission_id,
        }
    }
}

impl SecurityMessage {
    /// An answer with the four values asked for and every counter at
    /// zero.
    pub fn new(weapon_count: u32, settings_checksum: u32, exe_checksum: u32, level_checksum: u32) -> (r:
        SecurityMessage)
        ensures
            r.weapon_count == weapon_count,
            r.settings_checksum == settings_checksum,
            r.exe_checksum == exe_checksum,
            r.level_checksum == level_checksum,
            r.s2c_slow_total == 0,
            r.s2c_fast_total == 0,
            r.s2c_slow_current == 0,
            r.s2c_fast_current == 0,
            r.s2c_reliable_out == 0,
            r.ping == 0,
            r.ping_average == 0,
            r.ping_low == 0,
            r.ping_high == 0,
            !r.slow_frame,
    {
        SecurityMessage {
            weapon_count,
            settings_checksum,
            exe_checksum,
            level_checksum,
            s2c_slow_total: 0,
            s2c_fast_total: 0,
            s2c_slow_current: 0,
            s2c_fast_current: 0,
            s2c_reliable_out: 0,
            ping: 0,
            ping_average: 0,
            ping_low: 0,
            ping_high: 0,
            slow_frame: false,
        }
    }
}

/// Where the data of a file message start: after the type byte and
/// sixteen bytes of name.
pub const FILE_DATA_OFFSET: usize = 17;

/// Game message `0x16`: a file for the server.
pub struct SendFileMessage<'a> {
    pub filename: String,
    pub data: &'a [u8],
}

impl<'a> SendFileMessage<'a> {
    /// The bytes of `out` after the message is written over its front:
    /// the type byte, the name in a field of sixteen bytes, cut when it is
    /// longer and padded with zeros when it is shorter, then the data
    /// from offset 17 on. Bytes after the data stay as they are.
    pub open spec fn written_over(&self, out: Seq<u8>) -> Seq<u8> {
        let name = fixed_width(encode_utf8(self.filename@), 16);
        Seq::new(
            out.len(),
            |i: int|
                if i == 0 {
                    0x16u8
                } else if i <= 16 {
                    name[i - 1]
                } else if i < 17 + self.data@.len() {
                    self.data@[i - 17]
                } else {
                    out[i]
                },
        )
    }

    pub fn serialize(&self, out: &mut [u8])
        requires
            old(out)@.len() >= FILE_DATA_OFFSET + self.data@.len(),
        ensures
            final(out)@ == self.written_over(old(out)@),
    {
        let name = self.filename.as_str().as_bytes();
        let name_len: usize = name.len();
        let total: usize = out.len();
        out[0] = 0x16;
        let mut i: usize = 0;
        while i < 16
            invariant
                i <= 16,
                name_len == name@.len(),
                total == out@.len(),
                total == old(out)@.len(),
                total >= 17,
                name@ == encode_utf8(self.filename@),
                forall|j: int|
                    0 <= j < total ==> #[trigger] out@[j] == (if j == 0 {
                        0x16u8
                    } else if j <= i {
                        fixed_width(name@, 16)[j - 1]
                    } else {
                        old(out)@[j]
                    }),
            decreases 16 - i,
        {
            out[i + 1] = if i < name_len {
                name[i]
            } else {
                0
            };
            i += 1;
        }
        let count: usize = self.data.len();
        let mut k: usize = 0;
        while k < count
            invariant
                k <= count,
                count == self.data@.len(),
                total == out@.len(),
                total == old(out)@.len(),
                total >= 17 + count,
                name@ == encode_utf8(self.filename@),
                forall|j: int|
                    0 <= j < total ==> #[trigger] out@[j] == (if j == 0 {
                        0x16u8
                    } else if j <= 16 {
                        fixed_width(name@, 16)[j - 1]
                    } else if j < 17 + k {
                        self.data@[j - 17]
                    } else {
                        old(out)@[j]
                    }),
            decreases count - k,
        {
            out[17 + k] = self.data[k];
            k += 1;
        }
        assert(out@ =~= self.written_over(old(out)@));
    }
}

/// Length of a registration form on the wire.
pub const REGISTRATION_FORM_SIZE: usize = 165;

/// Game message `0x17`: the registration form.
pub struct RegistrationFormMessage {
    pub real_name: String,
    pub email: String,
    pub city: String,
    pub state: String,
    pub sex: RegistrationSex,
    pub age: u8,
    pub connecting_from_home: bool,
    pub connecting_from_work: bool,
    pub connecting_from_school: bool,
}

impl RegistrationFormMessage {
    /// The 165 bytes of the form: the type byte, four texts of fixed
    /// width, the sex, three flags and two zero words.
    pub open spec fn wire(&self) -> Seq<u8> {
        seq![0x17u8] + fixed_width(encode_utf8(self.real_name@), 32) + fixed_width(
            encode_utf8(self.email@),
            64,
        ) + fixed_width(encode_utf8(self.city@), 32) + fixed_width(encode_utf8(self.state@), 24)
            + seq![
            self.sex.spec_value(),
            flag_byte(self.connecting_from_home),
            flag_byte(self.connecting_from_work),
            flag_byte(self.connecting_from_school),
        ] + u32_bytes(0) + u32_bytes(0)
    }

    /// A form filled in for someone who connects from home.
    pub fn new(
        real_name: &str,
        email: &str,
        city: &str,
        state: &str,
        sex: RegistrationSex,
        age: u8,
    ) -> (r: Self)
        ensures
            r.real_name@ == real_name@,
            r.email@ == email@,
            r.city@ == city@,
            r.state@ == state@,
            r.sex == sex,
            r.age == age,
            r.connecting_from_home,
            !r.connecting_from_work,
            !r.connecting_from_school,
    {
        Self {
            real_name: real_name.to_owned(),
            email: email.to_owned(),
            city: city.to_owned(),
            state: state.to_owned(),
            sex,
            age,
            connecting_from_home: true,
            connecting_from_work: false,
            connecting_from_school: false,
        }
    }

    /// Writes the form over the front of `out`; the rest of `out` stays
    /// as it is.
    pub fn serialize(&self, out: &mut [u8])
        requires
            old(out)@.len() >= REGISTRATION_FORM_SIZE,
        ensures
            final(out)@.len() == old(out)@.len(),
            final(out)@.subrange(0, REGISTRATION_FORM_SIZE as int) == self.wire(),
            final(out)@.subrange(REGISTRATION_FORM_SIZE as int, old(out)@.len() as int) == old(
                out,
            )@.subrange(REGISTRATION_FORM_SIZE as int, old(out)@.len() as int),
    {
        let mut packet = Packet::empty().concat_u8(0x17);
        packet.write_fixed_str(self.real_name.as_str(), 32);
        packet.write_fixed_str(self.email.as_str(), 64);
        packet.write_fixed_str(self.city.as_str(), 32);
        packet.write_fixed_str(self.state.as_str(), 24);
        packet.write_u8(self.sex.value());
        packet.write_u8(flag(self.connecting_from_home));
        packet.write_u8(flag(self.connecting_from_work));
        packet.write_u8(flag(self.connecting_from_school));
        packet.write_u32(0);
        packet.write_u32(0);
        let total: usize = out.len();
        let mut i: usize = 0;
        while i < REGISTRATION_FORM_SIZE
            invariant
                i <= REGISTRATION_FORM_SIZE,
                packet.size == REGISTRATION_FORM_SIZE,
                packet@ == self.wire(),
                total == out@.len(),
                total == old(out)@.len(),
                total >= REGISTRATION_FORM_SIZE,
                forall|j: int|
                    0 <= j < total ==> #[trigger] out@[j] == (if j < i {
                        packet@[j]
                    } else {
                        old(out)@[j]
                    }),
            decreases REGISTRATION_FORM_SIZE - i,
        {
            out[i] = packet.data[i];
            i += 1;
        }
    }
}

/// The bytes of a list of settings changes: for every change its key, a
/// colon, its value and a zero byte.
pub open spec fn changes_bytes(changes: Seq<(String, String)>) -> Seq<u8>
    decreases changes.len(),
{
    if changes.len() == 0 {
        Seq::empty()
    } else {
        changes_bytes(changes.drop_last()) + encode_utf8(changes.last().0@).push(58u8)
            + encode_utf8(changes.last().1@).push(0u8)
    }
}

/// Game message `0x1D`: changes to the arena settings. A key has the form
/// `Category:Key`; a value is whatever the setting takes, as text.
pub struct ChangeArenaSettingsMessage<'a> {
    pub changes: &'a Vec<(String, String)>,
}

impl<'a> ChangeArenaSettingsMessage<'a> {
    /// The bytes of the message: the type byte, the changes in their
    /// order, and two zero bytes that end the list.
    pub open spec fn wire(&self) -> Seq<u8> {
        seq![0x1Du8] + changes_bytes(self.changes@) + seq![0u8, 0u8]
    }

    pub fn serialize(&self) -> (r: Vec<u8>)
        ensures
            r@ == self.wire(),
    {
        let mut out: Vec<u8> = Vec::new();
        out.push(0x1D);
        let count: usize = self.changes.len();
        let mut i: usize = 0;
        while i < count
            invariant
                i <= count,
                count == self.changes@.len(),
                out@ == seq![0x1Du8] + changes_bytes(self.changes@.subrange(0, i as int)),
            decreases count - i,
        {
            let ghost done = self.changes@.subrange(0, i as int);
            let change = &self.changes[i];
            out.extend_from_slice(change.0.as_str().as_bytes());
            out.push(58);
            out.extend_from_slice(change.1.as_str().as_bytes());
            out.push(0);
            i += 1;
            proof {
                let now = self.changes@.subrange(0, i as int);
                assert(now.drop_last() =~= done);
            }
        }
        assert(self.changes@.subrange(0, count as int) =~= self.changes@);
        out.push(0);
        out.push(0);
        out
    }
}

} // verus!

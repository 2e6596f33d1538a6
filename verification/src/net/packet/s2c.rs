//! Messages from the server: their layouts on the wire and their decoders.
//!
//! A game packet starts with its type byte; a core packet starts with a
//! zero byte and carries its type in the second byte. For every message
//! kind a predicate `decodes` says what each field holds of a packet, a
//! function `decode_error` says which packets are refused and why, and
//! the decoder is proved against both.

use crate::arena_settings::{ArenaSettings, ARENA_SETTINGS_SIZE};
use crate::clock::{tick_wrap, ServerTick};
use crate::codec::{
    le_i16, le_u16, le_u32, read_i16, read_u16, read_u32, signed8, u8_to_i8,
};
use crate::error::{short_of, DecodeError, MessageKind};
use crate::net::packet::bi::{
    ClusterMessage, HugeChunkMessage, ReliableAckMessage, ReliableDataMessage,
    SmallChunkBodyMessage, SmallChunkTailMessage, SyncResponseMessage,
};
use crate::ship::Ship;
use crate::net::packet::Serialize;
use crate::text::{parse_text, tail_bytes};
use vstd::prelude::*;
use vstd::utf8::{decode_utf8, valid_utf8};

verus! {

pub enum ServerMessage {
    Core(CoreServerMessage),
    Game(GameServerMessage),
}

pub enum CoreServerMessage {
    EncryptionResponse(EncryptionResponseMessage),
    ReliableData(ReliableDataMessage),
    ReliableAck(ReliableAckMessage),
    SyncResponse(SyncResponseMessage),
    Disconnect,
    SmallChunkBody(SmallChunkBodyMessage),
    SmallChunkTail(SmallChunkTailMessage),
    HugeChunk(HugeChunkMessage),
    HugeChunkCancel,
    HugeChunkCancelAck,
    Cluster(ClusterMessage),
}

/// The game messages, in the order of their type bytes from `0x01` to
/// `0x3C`.
pub enum GameServerMessage {
    PlayerId(PlayerIdMessage),
    InGame,
    PlayerEntering(PlayerEnteringMessage),
    PlayerLeaving(PlayerLeavingMessage),
    LargePosition(LargePositionMessage),
    PlayerDeath(PlayerDeathMessage),
    Chat(ChatMessage),
    PrizePickup(PrizePickupMessage),
    ScoreUpdate(ScoreUpdateMessage),
    PasswordResponse(PasswordResponseMessage),
    PowerballGoal(PowerballGoalMessage),
    Voice(VoiceMessage),
    PlayerFrequencyChange(PlayerFrequencyChangeMessage),
    TurretLinkCreate(TurretLinkCreateMessage),
    ArenaSettings(Box<ArenaSettings>),
    FileTransfer(FileTransferMessage),
    Unknown11,
    FlagPosition(FlagPositionMessage),
    FlagClaim(FlagClaimMessage),
    FlagVictory(FlagVictoryMessage),
    TurretLinkDestroy(TurretLinkDestroyMessage),
    FlagDrop(FlagDropMessage),
    Unknown17,
    SynchronizationRequest(SynchronizationRequestMessage),
    RequestFile(RequestFileMessage),
    ResetScore(ResetScoreMessage),
    ShipReset,
    SpectateData(SpectateDataMessage),
    PlayerTeamAndShipChange(PlayerTeamAndShipChangeMessage),
    SelfBannerChanged(SelfBannerChangedMessage),
    PlayerBannerChanged(PlayerBannerChangedMessage),
    CollectedPrize(CollectedPrizeMessage),
    BrickDrop(BrickDropMessage),
    TurfFlagUpdate(TurfFlagUpdateMessage),
    FlagReward(FlagRewardMessage),
    SpeedGameOver(SpeedGameOverMessage),
    ToggleUfo(ToggleUfoMessage),
    Unknown26,
    KeepAlive,
    SmallPosition(SmallPositionMessage),
    MapInformation(MapInformationMessage),
    CompressedMap(CompressedMapMessage),
    KothSetTimer(KothSetTimerMessage),
    KothReset(KothResetMessage),
    KothAddTime(KothAddTimeMessage),
    PowerballPosition(PowerballPositionMessage),
    ArenaDirectory(ArenaDirectoryMessage),
    ZoneBanner(ZoneBannerMessage),
    PostLogin,
    SetShipCoordinates(SetShipCoordinatesMessage),
    CustomLoginFailure(CustomLoginFailureMessage),
    ContinuumVersion(ContinuumVersionMessage),
    LvzToggle,
    LvzModify,
    WatchDamageToggle,
    WatchDamage,
    BatchedSmallPosition,
    BatchedLargePosition,
    Redirect,
    SelectBox,
}

/// Core message `0x02`: the server's answer to an encryption request.
pub struct EncryptionResponseMessage {
    pub key: u32,
}

/// One 64-byte record of a player-entering message.
pub struct PlayerEntering {
    pub ship: Ship,
    pub name: String,
    pub squad: String,
    pub kill_points: u32,
    pub flag_points: u32,
    pub player_id: u16,
    pub frequency: u16,
    pub kills: u16,
    pub deaths: u16,
    pub attach_parent: u16,
    pub flag_count: u16,
    pub has_koth: bool,
}

/// Game message `0x03`: the players who entered, one 64-byte record each.
pub struct PlayerEnteringMessage {
    pub players: Vec<PlayerEntering>,
}

/// The items a ship carries, packed in 32 bits: shield (1 bit), super
/// (1 bit), then bursts, repels, thors, bricks, decoys, rockets and
/// portals with 4 bits each.
#[derive(Debug, Copy, Clone, PartialEq, Eq, Structural)]
pub struct ItemSet {
    pub shield_active: bool,
    pub super_active: bool,
    pub bursts: u8,
    pub repels: u8,
    pub thors: u8,
    pub bricks: u8,
    pub decoys: u8,
    pub rockets: u8,
    pub portals: u8,
}

/// What may follow the fixed fields of a position message.
#[derive(Debug, Copy, Clone, PartialEq, Eq, Structural)]
pub struct ExtraPositionData {
    pub energy: u16,
    pub s2c_lag: u16,
    pub timer: u16,
    pub items: ItemSet,
}

/// Game message `0x05`: a position with a weapon.
pub struct LargePositionMessage {
    pub direction: u8,
    pub timestamp: u16,
    pub x: u16,
    pub y: u16,
    pub x_velocity: i16,
    pub y_velocity: i16,
    pub player_id: u16,
    pub checksum: u8,
    pub status: u8,
    pub ping: u8,
    pub bounty: u16,
    pub weapon: u16,
    pub extra: Option<ExtraPositionData>,
}

#[derive(Debug, Copy, Clone, PartialEq, Eq, Structural)]
pub enum ChatKind {
    Arena,
    PublicMacro,
    Public,
    Team,
    Frequency,
    Private,
    Warning,
    RemotePrivate,
    Error,
    Channel,
}

/// Game message `0x07`.
pub struct ChatMessage {
    pub kind: ChatKind,
    pub sound: u8,
    pub sender: u16,
    pub message: String,
}

#[derive(Debug, Copy, Clone, PartialEq, Eq, Structural)]
pub enum LoginResponse {
    Okay,
    Unregistered,
    BadPassword,
    ArenaFull,
    LockedOut,
    PermissionOnly,
    SpectateOnly,
    HighPoints,
    ConnectionSlow,
    ServerFull,
    InvalidName,
    OffensiveName,
    NoBiller,
    ServerBusy,
    UsageLow,
    Restricted,
    Demo,
    TooManyDemo,
    DemoDisabled,
}

/// Game message `0x0A`: the server's verdict on a login.
pub struct PasswordResponseMessage {
    pub response: LoginResponse,
    pub server_version: u32,
    pub registration_request: bool,
    pub news_checksum: u32,
}

/// Game message `0x1C`: with one byte of payload, whether extra position
/// data is wanted; with more, the player to watch.
#[derive(Debug, Copy, Clone, PartialEq, Eq, Structural)]
pub enum SpectateDataMessage {
    Player(u16),
    ExtraPositionInfo(bool),
}

/// Game message `0x22`: the owning team of every turf flag.
pub struct TurfFlagUpdateMessage {
    pub flag_teams: Vec<u16>,
}

#[derive(Debug, Copy, Clone, PartialEq, Eq, Structural)]
pub struct FlagReward {
    pub frequency: u16,
    pub points: u16,
}

/// Game message `0x23`.
pub struct FlagRewardMessage {
    pub rewards: Vec<FlagReward>,
}

/// Game message `0x28`: a position without a weapon.
pub struct SmallPositionMessage {
    pub direction: u8,
    pub timestamp: u16,
    pub x: u16,
    pub y: u16,
    pub x_velocity: i16,
    pub y_velocity: i16,
    pub ping: u8,
    pub bounty: u8,
    pub player_id: u8,
    pub status: u8,
    pub extra: Option<ExtraPositionData>,
}

#[derive(Debug)]
pub struct ArenaDirectoryEntry {
    pub name: String,
    pub count: u16,
    pub current: bool,
}

/// Game message `0x2F`: the arenas of the zone with their populations.
#[derive(Debug)]
pub struct ArenaDirectoryMessage {
    pub entries: Vec<ArenaDirectoryEntry>,
}

/// Game message `0x01`.
pub struct PlayerIdMessage {
    pub id: u16,
}

impl PlayerIdMessage {
    /// Why a packet is refused as this message, if it is.
    pub open spec fn decode_error(p: Seq<u8>) -> Option<DecodeError> {
        if p.len() < 3 {
            Some(DecodeError::TooShort(MessageKind::Game(0x01)))
        } else {
            None
        }
    }

    /// Every field holds what packet `p` says at the field's place.
    pub open spec fn decodes(&self, p: Seq<u8>) -> bool {
        &&& self.id == le_u16(p, 1)
    }

    /// Decodes the message from a whole packet, type byte included.
    pub fn parse(packet: &[u8]) -> (r: Result<PlayerIdMessage, DecodeError>)
        ensures
            match r {
                Ok(m) => Self::decode_error(packet@) is None && m.decodes(packet@),
                Err(e) => Self::decode_error(packet@) == Some(e),
            },
    {
        if packet.len() < 3 {
            return Err(DecodeError::TooShort(MessageKind::Game(0x01)));
        }
        Ok(
            PlayerIdMessage {
                id: read_u16(packet, 1),
            },
        )
    }
}

/// Game message `0x04`.
pub struct PlayerLeavingMessage {
    pub player_id: u16,
}

impl PlayerLeavingMessage {
    /// Why a packet is refused as this message, if it is.
    pub open spec fn decode_error(p: Seq<u8>) -> Option<DecodeError> {
        if p.len() < 3 {
            Some(DecodeError::TooShort(MessageKind::Game(0x04)))
        } else {
            None
        }
    }

    /// Every field holds what packet `p` says at the field's place.
    pub open spec fn decodes(&self, p: Seq<u8>) -> bool {
        &&& self.player_id == le_u16(p, 1)
    }

    /// Decodes the message from a whole packet, type byte included.
    pub fn parse(packet: &[u8]) -> (r: Result<PlayerLeavingMessage, DecodeError>)
        ensures
            match r {
                Ok(m) => Self::decode_error(packet@) is None && m.decodes(packet@),
                Err(e) => Self::decode_error(packet@) == Some(e),
            },
    {
        if packet.len() < 3 {
            return Err(DecodeError::TooShort(MessageKind::Game(0x04)));
        }
        Ok(
            PlayerLeavingMessage {
                player_id: read_u16(packet, 1),
            },
        )
    }
}

/// Game message `0x06`.
pub struct PlayerDeathMessage {
    pub prize_id: i8,
    pub killer_id: u16,
    pub killed_id: u16,
    pub bounty: u16,
    pub flag_transfer: u16,
}

impl PlayerDeathMessage {
    /// Why a packet is refused as this message, if it is.
    pub open spec fn decode_error(p: Seq<u8>) -> Option<DecodeError> {
        if p.len() < 10 {
            Some(DecodeError::TooShort(MessageKind::Game(0x06)))
        } else {
            None
        }
    }

    /// Every field holds what packet `p` says at the field's place.
    pub open spec fn decodes(&self, p: Seq<u8>) -> bool {
        &&& self.prize_id == signed8(p[1])
        &&& self.killer_id == le_u16(p, 2)
        &&& self.killed_id == le_u16(p, 4)
        &&& self.bounty == le_u16(p, 6)
        &&& self.flag_transfer == le_u16(p, 8)
    }

    /// Decodes the message from a whole packet, type byte included.
    pub fn parse(packet: &[u8]) -> (r: Result<PlayerDeathMessage, DecodeError>)
        ensures
            match r {
                Ok(m) => Self::decode_error(packet@) is None && m.decodes(packet@),
                Err(e) => Self::decode_error(packet@) == Some(e),
            },
    {
        if packet.len() < 10 {
            return Err(DecodeError::TooShort(MessageKind::Game(0x06)));
        }
        Ok(
            PlayerDeathMessage {
                prize_id: u8_to_i8(packet[1]),
                killer_id: read_u16(packet, 2),
                killed_id: read_u16(packet, 4),
                bounty: read_u16(packet, 6),
                flag_transfer: read_u16(packet, 8),
            },
        )
    }
}

/// Game message `0x08`.
pub struct PrizePickupMessage {
    pub timestamp: ServerTick,
    pub x: u16,
    pub y: u16,
    pub prize_id: i16,
    pub player_id: u16,
}

impl PrizePickupMessage {
    /// Why a packet is refused as this message, if it is.
    pub open spec fn decode_error(p: Seq<u8>) -> Option<DecodeError> {
        if p.len() < 13 {
            Some(DecodeError::TooShort(MessageKind::Game(0x08)))
        } else {
            None
        }
    }

    /// Every field holds what packet `p` says at the field's place.
    pub open spec fn decodes(&self, p: Seq<u8>) -> bool {
        &&& self.timestamp.spec_value() == tick_wrap(le_u32(p, 1) as int)
        &&& self.x == le_u16(p, 5)
        &&& self.y == le_u16(p, 7)
        &&& self.prize_id == le_i16(p, 9)
        &&& self.player_id == le_u16(p, 11)
    }

    /// Decodes the message from a whole packet, type byte included.
    pub fn parse(packet: &[u8]) -> (r: Result<PrizePickupMessage, DecodeError>)
        ensures
            match r {
                Ok(m) => Self::decode_error(packet@) is None && m.decodes(packet@),
                Err(e) => Self::decode_error(packet@) == Some(e),
            },
    {
        if packet.len() < 13 {
            return Err(DecodeError::TooShort(MessageKind::Game(0x08)));
        }
        Ok(
            PrizePickupMessage {
                timestamp: ServerTick::new(read_u32(packet, 1), 0),
                x: read_u16(packet, 5),
                y: read_u16(packet, 7),
                prize_id: read_i16(packet, 9),
                player_id: read_u16(packet, 11),
            },
        )
    }
}

/// Game message `0x09`.
pub struct ScoreUpdateMessage {
    pub player_id: u16,
    pub kill_points: u32,
    pub flag_points: u32,
    pub kills: u16,
    pub deaths: u16,
}

impl ScoreUpdateMessage {
    /// Why a packet is refused as this message, if it is.
    pub open spec fn decode_error(p: Seq<u8>) -> Option<DecodeError> {
        if p.len() < 15 {
            Some(DecodeError::TooShort(MessageKind::Game(0x09)))
        } else {
            None
        }
    }

    /// Every field holds what packet `p` says at the field's place.
    pub open spec fn decodes(&self, p: Seq<u8>) -> bool {
        &&& self.player_id == le_u16(p, 1)
        &&& self.kill_points == le_u32(p, 3)
        &&& self.flag_points == le_u32(p, 7)
        &&& self.kills == le_u16(p, 11)
        &&& self.deaths == le_u16(p, 13)
    }

    /// Decodes the message from a whole packet, type byte included.
    pub fn parse(packet: &[u8]) -> (r: Result<ScoreUpdateMessage, DecodeError>)
        ensures
            match r {
                Ok(m) => Self::decode_error(packet@) is None && m.decodes(packet@),
                Err(e) => Self::decode_error(packet@) == Some(e),
            },
    {
        if packet.len() < 15 {
            return Err(DecodeError::TooShort(MessageKind::Game(0x09)));
        }
        Ok(
            ScoreUpdateMessage {
                player_id: read_u16(packet, 1),
                kill_points: read_u32(packet, 3),
                flag_points: read_u32(packet, 7),
                kills: read_u16(packet, 11),
                deaths: read_u16(packet, 13),
            },
        )
    }
}

/// Game message `0x0b`.
pub struct PowerballGoalMessage {
    pub frequency: u16,
    pub team_points: u32,
}

impl PowerballGoalMessage {
    /// Why a packet is refused as this message, if it is.
    pub open spec fn decode_error(p: Seq<u8>) -> Option<DecodeError> {
        if p.len() < 7 {
            Some(DecodeError::TooShort(MessageKind::Game(0x0b)))
        } else {
            None
        }
    }

    /// Every field holds what packet `p` says at the field's place.
    pub open spec fn decodes(&self, p: Seq<u8>) -> bool {
        &&& self.frequency == le_u16(p, 1)
        &&& self.team_points == le_u32(p, 3)
    }

    /// Decodes the message from a whole packet, type byte included.
    pub fn parse(packet: &[u8]) -> (r: Result<PowerballGoalMessage, DecodeError>)
        ensures
            match r {
                Ok(m) => Self::decode_error(packet@) is None && m.decodes(packet@),
                Err(e) => Self::decode_error(packet@) == Some(e),
            },
    {
        if packet.len() < 7 {
            return Err(DecodeError::TooShort(MessageKind::Game(0x0b)));
        }
        Ok(
            PowerballGoalMessage {
                frequency: read_u16(packet, 1),
                team_points: read_u32(packet, 3),
            },
        )
    }
}

/// Game message `0x0c`.
pub struct VoiceMessage {
    pub player_id: u16,
    pub wav_data: Vec<u8>,
}

impl VoiceMessage {
    /// Why a packet is refused as this message, if it is.
    pub open spec fn decode_error(p: Seq<u8>) -> Option<DecodeError> {
        if p.len() < 3 {
            Some(DecodeError::TooShort(MessageKind::Game(0x0c)))
        } else {
            None
        }
    }

    /// Every field holds what packet `p` says at the field's place.
    pub open spec fn decodes(&self, p: Seq<u8>) -> bool {
        &&& self.player_id == le_u16(p, 1)
        &&& self.wav_data@ == p.subrange(3, p.len() as int)
    }

    /// Decodes the message from a whole packet, type byte included.
    pub fn parse(packet: &[u8]) -> (r: Result<VoiceMessage, DecodeError>)
        ensures
            match r {
                Ok(m) => Self::decode_error(packet@) is None && m.decodes(packet@),
                Err(e) => Self::decode_error(packet@) == Some(e),
            },
    {
        if packet.len() < 3 {
            return Err(DecodeError::TooShort(MessageKind::Game(0x0c)));
        }
        Ok(
            VoiceMessage {
                player_id: read_u16(packet, 1),
                wav_data: tail_bytes(packet, 3),
            },
        )
    }
}

/// Game message `0x0d`.
pub struct PlayerFrequencyChangeMessage {
    pub player_id: u16,
    pub frequency: u16,
}

impl PlayerFrequencyChangeMessage {
    /// Why a packet is refused as this message, if it is.
    pub open spec fn decode_error(p: Seq<u8>) -> Option<DecodeError> {
        if p.len() < 5 {
            Some(DecodeError::TooShort(MessageKind::Game(0x0d)))
        } else {
            None
        }
    }

    /// Every field holds what packet `p` says at the field's place.
    pub open spec fn decodes(&self, p: Seq<u8>) -> bool {
        &&& self.player_id == le_u16(p, 1)
        &&& self.frequency == le_u16(p, 3)
    }

    /// Decodes the message from a whole packet, type byte included.
    pub fn parse(packet: &[u8]) -> (r: Result<PlayerFrequencyChangeMessage, DecodeError>)
        ensures
            match r {
                Ok(m) => Self::decode_error(packet@) is None && m.decodes(packet@),
                Err(e) => Self::decode_error(packet@) == Some(e),
            },
    {
        if packet.len() < 5 {
            return Err(DecodeError::TooShort(MessageKind::Game(0x0d)));
        }
        Ok(
            PlayerFrequencyChangeMessage {
                player_id: read_u16(packet, 1),
                frequency: read_u16(packet, 3),
            },
        )
    }
}

/// Game message `0x0e`.
pub struct TurretLinkCreateMessage {
    pub requester_id: u16,
    pub destination_id: Option<u16>,
}

impl TurretLinkCreateMessage {
    /// Why a packet is refused as this message, if it is.
    pub open spec fn decode_error(p: Seq<u8>) -> Option<DecodeError> {
        if p.len() < 3 {
            Some(DecodeError::TooShort(MessageKind::Game(0x0e)))
        } else {
            None
        }
    }

    /// Every field holds what packet `p` says at the field's place.
    pub open spec fn decodes(&self, p: Seq<u8>) -> bool {
        &&& self.requester_id == le_u16(p, 1)
        &&& self.destination_id == (if p.len() >= 5 {
            Some(le_u16(p, 3))
        } else {
            None
        })
    }

    /// Decodes the message from a whole packet, type byte included.
    pub fn parse(packet: &[u8]) -> (r: Result<TurretLinkCreateMessage, DecodeError>)
        ensures
            match r {
                Ok(m) => Self::decode_error(packet@) is None && m.decodes(packet@),
                Err(e) => Self::decode_error(packet@) == Some(e),
            },
    {
        if packet.len() < 3 {
            return Err(DecodeError::TooShort(MessageKind::Game(0x0e)));
        }
        Ok(
            TurretLinkCreateMessage {
                requester_id: read_u16(packet, 1),
                destination_id: if packet.len() >= 5 {
                Some(read_u16(packet, 3))
            } else {
                None
            },
            },
        )
    }
}

/// Game message `0x10`.
pub struct FileTransferMessage {
    pub filename: String,
    pub data: Vec<u8>,
}

impl FileTransferMessage {
    /// Why a packet is refused as this message, if it is.
    pub open spec fn decode_error(p: Seq<u8>) -> Option<DecodeError> {
        if p.len() < 17 {
            Some(DecodeError::TooShort(MessageKind::Game(0x10)))
        } else if !valid_utf8(p.subrange(1, 17)) {
            Some(DecodeError::InvalidUtf8(MessageKind::Game(0x10)))
        } else {
            None
        }
    }

    /// Every field holds what packet `p` says at the field's place.
    pub open spec fn decodes(&self, p: Seq<u8>) -> bool {
        &&& self.filename@ == decode_utf8(p.subrange(1, 17))
        &&& self.data@ == p.subrange(17, p.len() as int)
    }

    /// Decodes the message from a whole packet, type byte included.
    pub fn parse(packet: &[u8]) -> (r: Result<FileTransferMessage, DecodeError>)
        ensures
            match r {
                Ok(m) => Self::decode_error(packet@) is None && m.decodes(packet@),
                Err(e) => Self::decode_error(packet@) == Some(e),
            },
    {
        if packet.len() < 17 {
            return Err(DecodeError::TooShort(MessageKind::Game(0x10)));
        }
        let filename = match parse_text(&packet[1..17]) {
            Some(text) => text,
            None => return Err(DecodeError::InvalidUtf8(MessageKind::Game(0x10))),
        };
        Ok(
            FileTransferMessage {
                filename,
                data: tail_bytes(packet, 17),
            },
        )
    }
}

/// Game message `0x12`.
pub struct FlagPositionMessage {
    pub flag_id: u16,
    pub x: u16,
    pub y: u16,
    pub owner_freq: u16,
}

impl FlagPositionMessage {
    /// Why a packet is refused as this message, if it is.
    pub open spec fn decode_error(p: Seq<u8>) -> Option<DecodeError> {
        if p.len() < 9 {
            Some(DecodeError::TooShort(MessageKind::Game(0x12)))
        } else {
            None
        }
    }

    /// Every field holds what packet `p` says at the field's place.
    pub open spec fn decodes(&self, p: Seq<u8>) -> bool {
        &&& self.flag_id == le_u16(p, 1)
        &&& self.x == le_u16(p, 3)
        &&& self.y == le_u16(p, 5)
        &&& self.owner_freq == le_u16(p, 7)
    }

    /// Decodes the message from a whole packet, type byte included.
    pub fn parse(packet: &[u8]) -> (r: Result<FlagPositionMessage, DecodeError>)
        ensures
            match r {
                Ok(m) => Self::decode_error(packet@) is None && m.decodes(packet@),
                Err(e) => Self::decode_error(packet@) == Some(e),
            },
    {
        if packet.len() < 9 {
            return Err(DecodeError::TooShort(MessageKind::Game(0x12)));
        }
        Ok(
            FlagPositionMessage {
                flag_id: read_u16(packet, 1),
                x: read_u16(packet, 3),
                y: read_u16(packet, 5),
                owner_freq: read_u16(packet, 7),
            },
        )
    }
}

/// Game message `0x13`.
pub struct FlagClaimMessage {
    pub flag_id: u16,
    pub player_id: u16,
}

impl FlagClaimMessage {
    /// Why a packet is refused as this message, if it is.
    pub open spec fn decode_error(p: Seq<u8>) -> Option<DecodeError> {
        if p.len() < 5 {
            Some(DecodeError::TooShort(MessageKind::Game(0x13)))
        } else {
            None
        }
    }

    /// Every field holds what packet `p` says at the field's place.
    pub open spec fn decodes(&self, p: Seq<u8>) -> bool {
        &&& self.flag_id == le_u16(p, 1)
        &&& self.player_id == le_u16(p, 3)
    }

    /// Decodes the message from a whole packet, type byte included.
    pub fn parse(packet: &[u8]) -> (r: Result<FlagClaimMessage, DecodeError>)
        ensures
            match r {
                Ok(m) => Self::decode_error(packet@) is None && m.decodes(packet@),
                Err(e) => Self::decode_error(packet@) == Some(e),
            },
    {
        if packet.len() < 5 {
            return Err(DecodeError::TooShort(MessageKind::Game(0x13)));
        }
        Ok(
            FlagClaimMessage {
                flag_id: read_u16(packet, 1),
                player_id: read_u16(packet, 3),
            },
        )
    }
}

/// Game message `0x14`.
pub struct FlagVictoryMessage {
    pub frequency: u16,
    pub points: u32,
}

impl FlagVictoryMessage {
    /// Why a packet is refused as this message, if it is.
    pub open spec fn decode_error(p: Seq<u8>) -> Option<DecodeError> {
        if p.len() < 7 {
            Some(DecodeError::TooShort(MessageKind::Game(0x14)))
        } else {
            None
        }
    }

    /// Every field holds what packet `p` says at the field's place.
    pub open spec fn decodes(&self, p: Seq<u8>) -> bool {
        &&& self.frequency == le_u16(p, 1)
        &&& self.points == le_u32(p, 3)
    }

    /// Decodes the message from a whole packet, type byte included.
    pub fn parse(packet: &[u8]) -> (r: Result<FlagVictoryMessage, DecodeError>)
        ensures
            match r {
                Ok(m) => Self::decode_error(packet@) is None && m.decodes(packet@),
                Err(e) => Self::decode_error(packet@) == Some(e),
            },
    {
        if packet.len() < 7 {
            return Err(DecodeError::TooShort(MessageKind::Game(0x14)));
        }
        Ok(
            FlagVictoryMessage {
                frequency: read_u16(packet, 1),
                points: read_u32(packet, 3),
            },
        )
    }
}

/// Game message `0x15`.
pub struct TurretLinkDestroyMessage {
    pub player_id: u16,
}

impl TurretLinkDestroyMessage {
    /// Why a packet is refused as this message, if it is.
    pub open spec fn decode_error(p: Seq<u8>) -> Option<DecodeError> {
        if p.len() < 3 {
            Some(DecodeError::TooShort(MessageKind::Game(0x15)))
        } else {
            None
        }
    }

    /// Every field holds what packet `p` says at the field's place.
    pub open spec fn decodes(&self, p: Seq<u8>) -> bool {
        &&& self.player_id == le_u16(p, 1)
    }

    /// Decodes the message from a whole packet, type byte included.
    pub fn parse(packet: &[u8]) -> (r: Result<TurretLinkDestroyMessage, DecodeError>)
        ensures
            match r {
                Ok(m) => Self::decode_error(packet@) is None && m.decodes(packet@),
                Err(e) => Self::decode_error(packet@) == Some(e),
            },
    {
        if packet.len() < 3 {
            return Err(DecodeError::TooShort(MessageKind::Game(0x15)));
        }
        Ok(
            TurretLinkDestroyMessage {
                player_id: read_u16(packet, 1),
            },
        )
    }
}

/// Game message `0x16`.
pub struct FlagDropMessage {
    pub player_id: u16,
}

impl FlagDropMessage {
    /// Why a packet is refused as this message, if it is.
    pub open spec fn decode_error(p: Seq<u8>) -> Option<DecodeError> {
        if p.len() < 3 {
            Some(DecodeError::TooShort(MessageKind::Game(0x16)))
        } else {
            None
        }
    }

    /// Every field holds what packet `p` says at the field's place.
    pub open spec fn decodes(&self, p: Seq<u8>) -> bool {
        &&& self.player_id == le_u16(p, 1)
    }

    /// Decodes the message from a whole packet, type byte included.
    pub fn parse(packet: &[u8]) -> (r: Result<FlagDropMessage, DecodeError>)
        ensures
            match r {
                Ok(m) => Self::decode_error(packet@) is None && m.decodes(packet@),
                Err(e) => Self::decode_error(packet@) == Some(e),
            },
    {
        if packet.len() < 3 {
            return Err(DecodeError::TooShort(MessageKind::Game(0x16)));
        }
        Ok(
            FlagDropMessage {
                player_id: read_u16(packet, 1),
            },
        )
    }
}

/// Game message `0x18`.
pub struct SynchronizationRequestMessage {
    pub prize_seed: u32,
    pub door_seed: u32,
    pub timestamp: ServerTick,
    pub checksum_key: u32,
}

impl SynchronizationRequestMessage {
    /// Why a packet is refused as this message, if it is.
    pub open spec fn decode_error(p: Seq<u8>) -> Option<DecodeError> {
        if p.len() < 17 {
            Some(DecodeError::TooShort(MessageKind::Game(0x18)))
        } else {
            None
        }
    }

    /// Every field holds what packet `p` says at the field's place.
    pub open spec fn decodes(&self, p: Seq<u8>) -> bool {
        &&& self.prize_seed == le_u32(p, 1)
        &&& self.door_seed == le_u32(p, 5)
        &&& self.timestamp.spec_value() == tick_wrap(le_u32(p, 9) as int)
        &&& self.checksum_key == le_u32(p, 13)
    }

    /// Decodes the message from a whole packet, type byte included.
    pub fn parse(packet: &[u8]) -> (r: Result<SynchronizationRequestMessage, DecodeError>)
        ensures
            match r {
                Ok(m) => Self::decode_error(packet@) is None && m.decodes(packet@),
                Err(e) => Self::decode_error(packet@) == Some(e),
            },
    {
        if packet.len() < 17 {
            return Err(DecodeError::TooShort(MessageKind::Game(0x18)));
        }
        Ok(
            SynchronizationRequestMessage {
                prize_seed: read_u32(packet, 1),
                door_seed: read_u32(packet, 5),
                timestamp: ServerTick::new(read_u32(packet, 9), 0),
                checksum_key: read_u32(packet, 13),
            },
        )
    }
}

/// Game message `0x19`.
pub struct RequestFileMessage {
    pub local_filename: String,
    pub remote_filename: String,
}

impl RequestFileMessage {
    /// Why a packet is refused as this message, if it is.
    pub open spec fn decode_error(p: Seq<u8>) -> Option<DecodeError> {
        if p.len() < 274 {
            Some(DecodeError::TooShort(MessageKind::Game(0x19)))
        } else if !valid_utf8(p.subrange(1, 257)) {
            Some(DecodeError::InvalidUtf8(MessageKind::Game(0x19)))
        } else if !valid_utf8(p.subrange(257, 274)) {
            Some(DecodeError::InvalidUtf8(MessageKind::Game(0x19)))
        } else {
            None
        }
    }

    /// Every field holds what packet `p` says at the field's place.
    pub open spec fn decodes(&self, p: Seq<u8>) -> bool {
        &&& self.local_filename@ == decode_utf8(p.subrange(1, 257))
        &&& self.remote_filename@ == decode_utf8(p.subrange(257, 274))
    }

    /// Decodes the message from a whole packet, type byte included.
    pub fn parse(packet: &[u8]) -> (r: Result<RequestFileMessage, DecodeError>)
        ensures
            match r {
                Ok(m) => Self::decode_error(packet@) is None && m.decodes(packet@),
                Err(e) => Self::decode_error(packet@) == Some(e),
            },
    {
        if packet.len() < 274 {
            return Err(DecodeError::TooShort(MessageKind::Game(0x19)));
        }
        let local_filename = match parse_text(&packet[1..257]) {
            Some(text) => text,
            None => return Err(DecodeError::InvalidUtf8(MessageKind::Game(0x19))),
        };
        let remote_filename = match parse_text(&packet[257..274]) {
            Some(text) => text,
            None => return Err(DecodeError::InvalidUtf8(MessageKind::Game(0x19))),
        };
        Ok(
            RequestFileMessage {
                local_filename,
                remote_filename,
            },
        )
    }
}

/// Game message `0x1a`.
pub struct ResetScoreMessage {
    pub player_id: u16,
}

impl ResetScoreMessage {
    /// Why a packet is refused as this message, if it is.
    pub open spec fn decode_error(p: Seq<u8>) -> Option<DecodeError> {
        if p.len() < 3 {
            Some(DecodeError::TooShort(MessageKind::Game(0x1a)))
        } else {
            None
        }
    }

    /// Every field holds what packet `p` says at the field's place.
    pub open spec fn decodes(&self, p: Seq<u8>) -> bool {
        &&& self.player_id == le_u16(p, 1)
    }

    /// Decodes the message from a whole packet, type byte included.
    pub fn parse(packet: &[u8]) -> (r: Result<ResetScoreMessage, DecodeError>)
        ensures
            match r {
                Ok(m) => Self::decode_error(packet@) is None && m.decodes(packet@),
                Err(e) => Self::decode_error(packet@) == Some(e),
            },
    {
        if packet.len() < 3 {
            return Err(DecodeError::TooShort(MessageKind::Game(0x1a)));
        }
        Ok(
            ResetScoreMessage {
                player_id: read_u16(packet, 1),
            },
        )
    }
}

/// Game message `0x1d`.
pub struct PlayerTeamAndShipChangeMessage {
    pub ship: Ship,
    pub player_id: u16,
    pub frequency: u16,
}

impl PlayerTeamAndShipChangeMessage {
    /// Why a packet is refused as this message, if it is.
    pub open spec fn decode_error(p: Seq<u8>) -> Option<DecodeError> {
        if p.len() < 6 {
            Some(DecodeError::TooShort(MessageKind::Game(0x1d)))
        } else {
            None
        }
    }

    /// Every field holds what packet `p` says at the field's place.
    pub open spec fn decodes(&self, p: Seq<u8>) -> bool {
        &&& self.ship == Ship::spec_from_network_value(p[1])
        &&& self.player_id == le_u16(p, 2)
        &&& self.frequency == le_u16(p, 4)
    }

    /// Decodes the message from a whole packet, type byte included.
    pub fn parse(packet: &[u8]) -> (r: Result<PlayerTeamAndShipChangeMessage, DecodeError>)
        ensures
            match r {
                Ok(m) => Self::decode_error(packet@) is None && m.decodes(packet@),
                Err(e) => Self::decode_error(packet@) == Some(e),
            },
    {
        if packet.len() < 6 {
            return Err(DecodeError::TooShort(MessageKind::Game(0x1d)));
        }
        Ok(
            PlayerTeamAndShipChangeMessage {
                ship: Ship::from_network_value(packet[1]),
                player_id: read_u16(packet, 2),
                frequency: read_u16(packet, 4),
            },
        )
    }
}

/// Game message `0x1e`.
pub struct SelfBannerChangedMessage {
    pub enabled: bool,
}

impl SelfBannerChangedMessage {
    /// Why a packet is refused as this message, if it is.
    pub open spec fn decode_error(p: Seq<u8>) -> Option<DecodeError> {
        if p.len() < 2 {
            Some(DecodeError::TooShort(MessageKind::Game(0x1e)))
        } else {
            None
        }
    }

    /// Every field holds what packet `p` says at the field's place.
    pub open spec fn decodes(&self, p: Seq<u8>) -> bool {
        &&& self.enabled == (p[1] != 0)
    }

    /// Decodes the message from a whole packet, type byte included.
    pub fn parse(packet: &[u8]) -> (r: Result<SelfBannerChangedMessage, DecodeError>)
        ensures
            match r {
                Ok(m) => Self::decode_error(packet@) is None && m.decodes(packet@),
                Err(e) => Self::decode_error(packet@) == Some(e),
            },
    {
        if packet.len() < 2 {
            return Err(DecodeError::TooShort(MessageKind::Game(0x1e)));
        }
        Ok(
            SelfBannerChangedMessage {
                enabled: packet[1] != 0,
            },
        )
    }
}

/// Game message `0x1f`.
pub struct PlayerBannerChangedMessage {
    pub player_id: u16,
    pub banner_data: [u8; 96],
}

impl PlayerBannerChangedMessage {
    /// Why a packet is refused as this message, if it is.
    pub open spec fn decode_error(p: Seq<u8>) -> Option<DecodeError> {
        if p.len() < 99 {
            Some(DecodeError::TooShort(MessageKind::Game(0x1f)))
        } else {
            None
        }
    }

    /// Every field holds what packet `p` says at the field's place.
    pub open spec fn decodes(&self, p: Seq<u8>) -> bool {
        &&& self.player_id == le_u16(p, 1)
        &&& self.banner_data@ == p.subrange(3, 99)
    }

    /// Decodes the message from a whole packet, type byte included.
    pub fn parse(packet: &[u8]) -> (r: Result<PlayerBannerChangedMessage, DecodeError>)
        ensures
            match r {
                Ok(m) => Self::decode_error(packet@) is None && m.decodes(packet@),
                Err(e) => Self::decode_error(packet@) == Some(e),
            },
    {
        if packet.len() < 99 {
            return Err(DecodeError::TooShort(MessageKind::Game(0x1f)));
        }
        let banner_data = copy_array_96(packet, 3);
        Ok(
            PlayerBannerChangedMessage {
                player_id: read_u16(packet, 1),
                banner_data,
            },
        )
    }
}

/// Game message `0x20`.
pub struct CollectedPrizeMessage {
    pub count: u16,
    pub prize_id: i16,
}

impl CollectedPrizeMessage {
    /// Why a packet is refused as this message, if it is.
    pub open spec fn decode_error(p: Seq<u8>) -> Option<DecodeError> {
        if p.len() < 5 {
            Some(DecodeError::TooShort(MessageKind::Game(0x20)))
        } else {
            None
        }
    }

    /// Every field holds what packet `p` says at the field's place.
    pub open spec fn decodes(&self, p: Seq<u8>) -> bool {
        &&& self.count == le_u16(p, 1)
        &&& self.prize_id == le_i16(p, 3)
    }

    /// Decodes the message from a whole packet, type byte included.
    pub fn parse(packet: &[u8]) -> (r: Result<CollectedPrizeMessage, DecodeError>)
        ensures
            match r {
                Ok(m) => Self::decode_error(packet@) is None && m.decodes(packet@),
                Err(e) => Self::decode_error(packet@) == Some(e),
            },
    {
        if packet.len() < 5 {
            return Err(DecodeError::TooShort(MessageKind::Game(0x20)));
        }
        Ok(
            CollectedPrizeMessage {
                count: read_u16(packet, 1),
                prize_id: read_i16(packet, 3),
            },
        )
    }
}

/// Game message `0x21`.
pub struct BrickDropMessage {
    pub x1: u16,
    pub y1: u16,
    pub x2: u16,
    pub y2: u16,
    pub frequency: u16,
    pub brick_id: u16,
    pub timestamp: ServerTick,
}

impl BrickDropMessage {
    /// Why a packet is refused as this message, if it is.
    pub open spec fn decode_error(p: Seq<u8>) -> Option<DecodeError> {
        if p.len() < 17 {
            Some(DecodeError::TooShort(MessageKind::Game(0x21)))
        } else {
            None
        }
    }

    /// Every field holds what packet `p` says at the field's place.
    pub open spec fn decodes(&self, p: Seq<u8>) -> bool {
        &&& self.x1 == le_u16(p, 1)
        &&& self.y1 == le_u16(p, 3)
        &&& self.x2 == le_u16(p, 5)
        &&& self.y2 == le_u16(p, 7)
        &&& self.frequency == le_u16(p, 9)
        &&& self.brick_id == le_u16(p, 11)
        &&& self.timestamp.spec_value() == tick_wrap(le_u32(p, 13) as int)
    }

    /// Decodes the message from a whole packet, type byte included.
    pub fn parse(packet: &[u8]) -> (r: Result<BrickDropMessage, DecodeError>)
        ensures
            match r {
                Ok(m) => Self::decode_error(packet@) is None && m.decodes(packet@),
                Err(e) => Self::decode_error(packet@) == Some(e),
            },
    {
        if packet.len() < 17 {
            return Err(DecodeError::TooShort(MessageKind::Game(0x21)));
        }
        Ok(
            BrickDropMessage {
                x1: read_u16(packet, 1),
                y1: read_u16(packet, 3),
                x2: read_u16(packet, 5),
                y2: read_u16(packet, 7),
                frequency: read_u16(packet, 9),
                brick_id: read_u16(packet, 11),
                timestamp: ServerTick::new(read_u32(packet, 13), 0),
            },
        )
    }
}

/// Game message `0x24`.
pub struct SpeedGameOverMessage {
    pub best_recorded_game: bool,
    pub rank: u16,
    pub score: u32,
    pub player1_score: u32,
    pub player2_score: u32,
    pub player3_score: u32,
    pub player4_score: u32,
    pub player5_score: u32,
    pub player1_id: u16,
    pub player2_id: u16,
    pub player3_id: u16,
    pub player4_id: u16,
    pub player5_id: u16,
}

impl SpeedGameOverMessage {
    /// Why a packet is refused as this message, if it is.
    pub open spec fn decode_error(p: Seq<u8>) -> Option<DecodeError> {
        if p.len() < 38 {
            Some(DecodeError::TooShort(MessageKind::Game(0x24)))
        } else {
            None
        }
    }

    /// Every field holds what packet `p` says at the field's place.
    pub open spec fn decodes(&self, p: Seq<u8>) -> bool {
        &&& self.best_recorded_game == (p[1] != 0)
        &&& self.rank == le_u16(p, 2)
        &&& self.score == le_u32(p, 4)
        &&& self.player1_score == le_u32(p, 8)
        &&& self.player2_score == le_u32(p, 12)
        &&& self.player3_score == le_u32(p, 16)
        &&& self.player4_score == le_u32(p, 20)
        &&& self.player5_score == le_u32(p, 24)
        &&& self.player1_id == le_u16(p, 28)
        &&& self.player2_id == le_u16(p, 30)
        &&& self.player3_id == le_u16(p, 32)
        &&& self.player4_id == le_u16(p, 34)
        &&& self.player5_id == le_u16(p, 36)
    }

    /// Decodes the message from a whole packet, type byte included.
    pub fn parse(packet: &[u8]) -> (r: Result<SpeedGameOverMessage, DecodeError>)
        ensures
            match r {
                Ok(m) => Self::decode_error(packet@) is None && m.decodes(packet@),
                Err(e) => Self::decode_error(packet@) == Some(e),
            },
    {
        if packet.len() < 38 {
            return Err(DecodeError::TooShort(MessageKind::Game(0x24)));
        }
        Ok(
            SpeedGameOverMessage {
                best_recorded_game: packet[1] != 0,
                rank: read_u16(packet, 2),
                score: read_u32(packet, 4),
                player1_score: read_u32(packet, 8),
                player2_score: read_u32(packet, 12),
                player3_score: read_u32(packet, 16),
                player4_score: read_u32(packet, 20),
                player5_score: read_u32(packet, 24),
                player1_id: read_u16(packet, 28),
                player2_id: read_u16(packet, 30),
                player3_id: read_u16(packet, 32),
                player4_id: read_u16(packet, 34),
                player5_id: read_u16(packet, 36),
            },
        )
    }
}

/// Game message `0x25`.
pub struct ToggleUfoMessage {
    pub enable: bool,
}

impl ToggleUfoMessage {
    /// Why a packet is refused as this message, if it is.
    pub open spec fn decode_error(p: Seq<u8>) -> Option<DecodeError> {
        if p.len() < 2 {
            Some(DecodeError::TooShort(MessageKind::Game(0x25)))
        } else {
            None
        }
    }

    /// Every field holds what packet `p` says at the field's place.
    pub open spec fn decodes(&self, p: Seq<u8>) -> bool {
        &&& self.enable == (p[1] != 0)
    }

    /// Decodes the message from a whole packet, type byte included.
    pub fn parse(packet: &[u8]) -> (r: Result<ToggleUfoMessage, DecodeError>)
        ensures
            match r {
                Ok(m) => Self::decode_error(packet@) is None && m.decodes(packet@),
                Err(e) => Self::decode_error(packet@) == Some(e),
            },
    {
        if packet.len() < 2 {
            return Err(DecodeError::TooShort(MessageKind::Game(0x25)));
        }
        Ok(
            ToggleUfoMessage {
                enable: packet[1] != 0,
            },
        )
    }
}

/// Game message `0x29`.
pub struct MapInformationMessage {
    pub filename: String,
    pub checksum: u32,
    pub filesize: Option<u32>,
}

impl MapInformationMessage {
    /// Why a packet is refused as this message, if it is.
    pub open spec fn decode_error(p: Seq<u8>) -> Option<DecodeError> {
        if p.len() < 21 {
            Some(DecodeError::TooShort(MessageKind::Game(0x29)))
        } else if !valid_utf8(p.subrange(1, 17)) {
            Some(DecodeError::InvalidUtf8(MessageKind::Game(0x29)))
        } else {
            None
        }
    }

    /// Every field holds what packet `p` says at the field's place.
    pub open spec fn decodes(&self, p: Seq<u8>) -> bool {
        &&& self.filename@ == decode_utf8(p.subrange(1, 17))
        &&& self.checksum == le_u32(p, 17)
        &&& self.filesize == (if p.len() >= 25 {
            Some(le_u32(p, 21))
        } else {
            None
        })
    }

    /// Decodes the message from a whole packet, type byte included.
    pub fn parse(packet: &[u8]) -> (r: Result<MapInformationMessage, DecodeError>)
        ensures
            match r {
                Ok(m) => Self::decode_error(packet@) is None && m.decodes(packet@),
                Err(e) => Self::decode_error(packet@) == Some(e),
            },
    {
        if packet.len() < 21 {
            return Err(DecodeError::TooShort(MessageKind::Game(0x29)));
        }
        let filename = match parse_text(&packet[1..17]) {
            Some(text) => text,
            None => return Err(DecodeError::InvalidUtf8(MessageKind::Game(0x29))),
        };
        Ok(
            MapInformationMessage {
                filename,
                checksum: read_u32(packet, 17),
                filesize: if packet.len() >= 25 {
                Some(read_u32(packet, 21))
            } else {
                None
            },
            },
        )
    }
}

/// Game message `0x2a`.
pub struct CompressedMapMessage {
    pub filename: String,
    pub data: Vec<u8>,
}

impl CompressedMapMessage {
    /// Why a packet is refused as this message, if it is.
    pub open spec fn decode_error(p: Seq<u8>) -> Option<DecodeError> {
        if p.len() < 17 {
            Some(DecodeError::TooShort(MessageKind::Game(0x2a)))
        } else if !valid_utf8(p.subrange(1, 17)) {
            Some(DecodeError::InvalidUtf8(MessageKind::Game(0x2a)))
        } else {
            None
        }
    }

    /// Every field holds what packet `p` says at the field's place.
    pub open spec fn decodes(&self, p: Seq<u8>) -> bool {
        &&& self.filename@ == decode_utf8(p.subrange(1, 17))
        &&& self.data@ == p.subrange(17, p.len() as int)
    }

    /// Decodes the message from a whole packet, type byte included.
    pub fn parse(packet: &[u8]) -> (r: Result<CompressedMapMessage, DecodeError>)
        ensures
            match r {
                Ok(m) => Self::decode_error(packet@) is None && m.decodes(packet@),
                Err(e) => Self::decode_error(packet@) == Some(e),
            },
    {
        if packet.len() < 17 {
            return Err(DecodeError::TooShort(MessageKind::Game(0x2a)));
        }
        let filename = match parse_text(&packet[1..17]) {
            Some(text) => text,
            None => return Err(DecodeError::InvalidUtf8(MessageKind::Game(0x2a))),
        };
        Ok(
            CompressedMapMessage {
                filename,
                data: tail_bytes(packet, 17),
            },
        )
    }
}

/// Game message `0x2b`.
pub struct KothSetTimerMessage {
    pub timer: u32,
}

impl KothSetTimerMessage {
    /// Why a packet is refused as this message, if it is.
    pub open spec fn decode_error(p: Seq<u8>) -> Option<DecodeError> {
        if p.len() < 5 {
            Some(DecodeError::TooShort(MessageKind::Game(0x2b)))
        } else {
            None
        }
    }

    /// Every field holds what packet `p` says at the field's place.
    pub open spec fn decodes(&self, p: Seq<u8>) -> bool {
        &&& self.timer == le_u32(p, 1)
    }

    /// Decodes the message from a whole packet, type byte included.
    pub fn parse(packet: &[u8]) -> (r: Result<KothSetTimerMessage, DecodeError>)
        ensures
            match r {
                Ok(m) => Self::decode_error(packet@) is None && m.decodes(packet@),
                Err(e) => Self::decode_error(packet@) == Some(e),
            },
    {
        if packet.len() < 5 {
            return Err(DecodeError::TooShort(MessageKind::Game(0x2b)));
        }
        Ok(
            KothSetTimerMessage {
                timer: read_u32(packet, 1),
            },
        )
    }
}

/// Game message `0x2c`.
pub struct KothResetMessage {
    pub add_crown: bool,
    pub timer: u32,
    pub player_id: u16,
}

impl KothResetMessage {
    /// Why a packet is refused as this message, if it is.
    pub open spec fn decode_error(p: Seq<u8>) -> Option<DecodeError> {
        if p.len() < 8 {
            Some(DecodeError::TooShort(MessageKind::Game(0x2c)))
        } else {
            None
        }
    }

    /// Every field holds what packet `p` says at the field's place.
    pub open spec fn decodes(&self, p: Seq<u8>) -> bool {
        &&& self.add_crown == (p[1] != 0)
        &&& self.timer == le_u32(p, 2)
        &&& self.player_id == le_u16(p, 6)
    }

    /// Decodes the message from a whole packet, type byte included.
    pub fn parse(packet: &[u8]) -> (r: Result<KothResetMessage, DecodeError>)
        ensures
            match r {
                Ok(m) => Self::decode_error(packet@) is None && m.decodes(packet@),
                Err(e) => Self::decode_error(packet@) == Some(e),
            },
    {
        if packet.len() < 8 {
            return Err(DecodeError::TooShort(MessageKind::Game(0x2c)));
        }
        Ok(
            KothResetMessage {
                add_crown: packet[1] != 0,
                timer: read_u32(packet, 2),
                player_id: read_u16(packet, 6),
            },
        )
    }
}

/// Game message `0x2d`.
pub struct KothAddTimeMessage {
    pub added_time: u32,
}

impl KothAddTimeMessage {
    /// Why a packet is refused as this message, if it is.
    pub open spec fn decode_error(p: Seq<u8>) -> Option<DecodeError> {
        if p.len() < 5 {
            Some(DecodeError::TooShort(MessageKind::Game(0x2d)))
        } else {
            None
        }
    }

    /// Every field holds what packet `p` says at the field's place.
    pub open spec fn decodes(&self, p: Seq<u8>) -> bool {
        &&& self.added_time == le_u32(p, 1)
    }

    /// Decodes the message from a whole packet, type byte included.
    pub fn parse(packet: &[u8]) -> (r: Result<KothAddTimeMessage, DecodeError>)
        ensures
            match r {
                Ok(m) => Self::decode_error(packet@) is None && m.decodes(packet@),
                Err(e) => Self::decode_error(packet@) == Some(e),
            },
    {
        if packet.len() < 5 {
            return Err(DecodeError::TooShort(MessageKind::Game(0x2d)));
        }
        Ok(
            KothAddTimeMessage {
                added_time: read_u32(packet, 1),
            },
        )
    }
}

/// Game message `0x2e`.
pub struct PowerballPositionMessage {
    pub ball_id: u8,
    pub x: u16,
    pub y: u16,
    pub x_velocity: i16,
    pub y_velocity: i16,
    pub owner_id: u16,
    pub timestamp: ServerTick,
}

impl PowerballPositionMessage {
    /// Why a packet is refused as this message, if it is.
    pub open spec fn decode_error(p: Seq<u8>) -> Option<DecodeError> {
        if p.len() < 16 {
            Some(DecodeError::TooShort(MessageKind::Game(0x2e)))
        } else {
            None
        }
    }

    /// Every field holds what packet `p` says at the field's place.
    pub open spec fn decodes(&self, p: Seq<u8>) -> bool {
        &&& self.ball_id == p[1]
        &&& self.x == le_u16(p, 2)
        &&& self.y == le_u16(p, 4)
        &&& self.x_velocity == le_i16(p, 6)
        &&& self.y_velocity == le_i16(p, 8)
        &&& self.owner_id == le_u16(p, 10)
        &&& self.timestamp.spec_value() == tick_wrap(le_u32(p, 12) as int)
    }

    /// Decodes the message from a whole packet, type byte included.
    pub fn parse(packet: &[u8]) -> (r: Result<PowerballPositionMessage, DecodeError>)
        ensures
            match r {
                Ok(m) => Self::decode_error(packet@) is None && m.decodes(packet@),
                Err(e) => Self::decode_error(packet@) == Some(e),
            },
    {
        if packet.len() < 16 {
            return Err(DecodeError::TooShort(MessageKind::Game(0x2e)));
        }
        Ok(
            PowerballPositionMessage {
                ball_id: packet[1],
                x: read_u16(packet, 2),
                y: read_u16(packet, 4),
                x_velocity: read_i16(packet, 6),
                y_velocity: read_i16(packet, 8),
                owner_id: read_u16(packet, 10),
                timestamp: ServerTick::new(read_u32(packet, 12), 0),
            },
        )
    }
}

/// Game message `0x30`.
pub struct ZoneBannerMessage {
    pub display_mode: u8,
    pub width: u16,
    pub height: u16,
    pub duration: u32,
    pub data: Vec<u8>,
}

impl ZoneBannerMessage {
    /// Why a packet is refused as this message, if it is.
    pub open spec fn decode_error(p: Seq<u8>) -> Option<DecodeError> {
        if p.len() < 10 {
            Some(DecodeError::TooShort(MessageKind::Game(0x30)))
        } else {
            None
        }
    }

    /// Every field holds what packet `p` says at the field's place.
    pub open spec fn decodes(&self, p: Seq<u8>) -> bool {
        &&& self.display_mode == p[1]
        &&& self.width == le_u16(p, 2)
        &&& self.height == le_u16(p, 4)
        &&& self.duration == le_u32(p, 6)
        &&& self.data@ == p.subrange(10, p.len() as int)
    }

    /// Decodes the message from a whole packet, type byte included.
    pub fn parse(packet: &[u8]) -> (r: Result<ZoneBannerMessage, DecodeError>)
        ensures
            match r {
                Ok(m) => Self::decode_error(packet@) is None && m.decodes(packet@),
                Err(e) => Self::decode_error(packet@) == Some(e),
            },
    {
        if packet.len() < 10 {
            return Err(DecodeError::TooShort(MessageKind::Game(0x30)));
        }
        Ok(
            ZoneBannerMessage {
                display_mode: packet[1],
                width: read_u16(packet, 2),
                height: read_u16(packet, 4),
                duration: read_u32(packet, 6),
                data: tail_bytes(packet, 10),
            },
        )
    }
}

/// Game message `0x32`.
pub struct SetShipCoordinatesMessage {
    pub x: u16,
    pub y: u16,
}

impl SetShipCoordinatesMessage {
    /// Why a packet is refused as this message, if it is.
    pub open spec fn decode_error(p: Seq<u8>) -> Option<DecodeError> {
        if p.len() < 5 {
            Some(DecodeError::TooShort(MessageKind::Game(0x32)))
        } else {
            None
        }
    }

    /// Every field holds what packet `p` says at the field's place.
    pub open spec fn decodes(&self, p: Seq<u8>) -> bool {
        &&& self.x == le_u16(p, 1)
        &&& self.y == le_u16(p, 3)
    }

    /// Decodes the message from a whole packet, type byte included.
    pub fn parse(packet: &[u8]) -> (r: Result<SetShipCoordinatesMessage, DecodeError>)
        ensures
            match r {
                Ok(m) => Self::decode_error(packet@) is None && m.decodes(packet@),
                Err(e) => Self::decode_error(packet@) == Some(e),
            },
    {
        if packet.len() < 5 {
            return Err(DecodeError::TooShort(MessageKind::Game(0x32)));
        }
        Ok(
            SetShipCoordinatesMessage {
                x: read_u16(packet, 1),
                y: read_u16(packet, 3),
            },
        )
    }
}

/// Game message `0x33`.
pub struct CustomLoginFailureMessage {
    pub reason: String,
}

impl CustomLoginFailureMessage {
    /// Why a packet is refused as this message, if it is.
    pub open spec fn decode_error(p: Seq<u8>) -> Option<DecodeError> {
        if p.len() < 1 {
            Some(DecodeError::TooShort(MessageKind::Game(0x33)))
        } else if !valid_utf8(p.subrange(1, p.len() as int)) {
            Some(DecodeError::InvalidUtf8(MessageKind::Game(0x33)))
        } else {
            None
        }
    }

    /// Every field holds what packet `p` says at the field's place.
    pub open spec fn decodes(&self, p: Seq<u8>) -> bool {
        &&& self.reason@ == decode_utf8(p.subrange(1, p.len() as int))
    }

    /// Decodes the message from a whole packet, type byte included.
    pub fn parse(packet: &[u8]) -> (r: Result<CustomLoginFailureMessage, DecodeError>)
        ensures
            match r {
                Ok(m) => Self::decode_error(packet@) is None && m.decodes(packet@),
                Err(e) => Self::decode_error(packet@) == Some(e),
            },
    {
        if packet.len() < 1 {
            return Err(DecodeError::TooShort(MessageKind::Game(0x33)));
        }
        let reason = match parse_text(&packet[1..packet.len()]) {
            Some(text) => text,
            None => return Err(DecodeError::InvalidUtf8(MessageKind::Game(0x33))),
        };
        Ok(
            CustomLoginFailureMessage {
                reason,
            },
        )
    }
}

/// Game message `0x34`.
pub struct ContinuumVersionMessage {
    pub version: u16,
    pub checksum: u32,
}

impl ContinuumVersionMessage {
    /// Why a packet is refused as this message, if it is.
    pub open spec fn decode_error(p: Seq<u8>) -> Option<DecodeError> {
        if p.len() < 7 {
            Some(DecodeError::TooShort(MessageKind::Game(0x34)))
        } else {
            None
        }
    }

    /// Every field holds what packet `p` says at the field's place.
    pub open spec fn decodes(&self, p: Seq<u8>) -> bool {
        &&& self.version == le_u16(p, 1)
        &&& self.checksum == le_u32(p, 3)
    }

    /// Decodes the message from a whole packet, type byte included.
    pub fn parse(packet: &[u8]) -> (r: Result<ContinuumVersionMessage, DecodeError>)
        ensures
            match r {
                Ok(m) => Self::decode_error(packet@) is None && m.decodes(packet@),
                Err(e) => Self::decode_error(packet@) == Some(e),
            },
    {
        if packet.len() < 7 {
            return Err(DecodeError::TooShort(MessageKind::Game(0x34)));
        }
        Ok(
            ContinuumVersionMessage {
                version: read_u16(packet, 1),
                checksum: read_u32(packet, 3),
            },
        )
    }
}

impl GameServerMessage {
    /// The type byte that announces this message.
    pub open spec fn type_byte(&self) -> u8 {
        match self {
            GameServerMessage::PlayerId(_) => 0x01,
            GameServerMessage::InGame => 0x02,
            GameServerMessage::PlayerEntering(_) => 0x03,
            GameServerMessage::PlayerLeaving(_) => 0x04,
            GameServerMessage::LargePosition(_) => 0x05,
            GameServerMessage::PlayerDeath(_) => 0x06,
            GameServerMessage::Chat(_) => 0x07,
            GameServerMessage::PrizePickup(_) => 0x08,
            GameServerMessage::ScoreUpdate(_) => 0x09,
            GameServerMessage::PasswordResponse(_) => 0x0a,
            GameServerMessage::PowerballGoal(_) => 0x0b,
            GameServerMessage::Voice(_) => 0x0c,
            GameServerMessage::PlayerFrequencyChange(_) => 0x0d,
            GameServerMessage::TurretLinkCreate(_) => 0x0e,
            GameServerMessage::ArenaSettings(_) => 0x0f,
            GameServerMessage::FileTransfer(_) => 0x10,
            GameServerMessage::Unknown11 => 0x11,
            GameServerMessage::FlagPosition(_) => 0x12,
            GameServerMessage::FlagClaim(_) => 0x13,
            GameServerMessage::FlagVictory(_) => 0x14,
            GameServerMessage::TurretLinkDestroy(_) => 0x15,
            GameServerMessage::FlagDrop(_) => 0x16,
            GameServerMessage::Unknown17 => 0x17,
            GameServerMessage::SynchronizationRequest(_) => 0x18,
            GameServerMessage::RequestFile(_) => 0x19,
            GameServerMessage::ResetScore(_) => 0x1a,
            GameServerMessage::ShipReset => 0x1b,
            GameServerMessage::SpectateData(_) => 0x1c,
            GameServerMessage::PlayerTeamAndShipChange(_) => 0x1d,
            GameServerMessage::SelfBannerChanged(_) => 0x1e,
            GameServerMessage::PlayerBannerChanged(_) => 0x1f,
            GameServerMessage::CollectedPrize(_) => 0x20,
            GameServerMessage::BrickDrop(_) => 0x21,
            GameServerMessage::TurfFlagUpdate(_) => 0x22,
            GameServerMessage::FlagReward(_) => 0x23,
            GameServerMessage::SpeedGameOver(_) => 0x24,
            GameServerMessage::ToggleUfo(_) => 0x25,
            GameServerMessage::Unknown26 => 0x26,
            GameServerMessage::KeepAlive => 0x27,
            GameServerMessage::SmallPosition(_) => 0x28,
            GameServerMessage::MapInformation(_) => 0x29,
            GameServerMessage::CompressedMap(_) => 0x2a,
            GameServerMessage::KothSetTimer(_) => 0x2b,
            GameServerMessage::KothReset(_) => 0x2c,
            GameServerMessage::KothAddTime(_) => 0x2d,
            GameServerMessage::PowerballPosition(_) => 0x2e,
            GameServerMessage::ArenaDirectory(_) => 0x2f,
            GameServerMessage::ZoneBanner(_) => 0x30,
            GameServerMessage::PostLogin => 0x31,
            GameServerMessage::SetShipCoordinates(_) => 0x32,
            GameServerMessage::CustomLoginFailure(_) => 0x33,
            GameServerMessage::ContinuumVersion(_) => 0x34,
            GameServerMessage::LvzToggle => 0x35,
            GameServerMessage::LvzModify => 0x36,
            GameServerMessage::WatchDamageToggle => 0x37,
            GameServerMessage::WatchDamage => 0x38,
            GameServerMessage::BatchedSmallPosition => 0x39,
            GameServerMessage::BatchedLargePosition => 0x3a,
            GameServerMessage::Redirect => 0x3b,
            GameServerMessage::SelectBox => 0x3c,
        }
    }

    /// The message is what game packet `p` decodes to: its kind is the
    /// one that the type byte names, and every field holds what the
    /// packet says.
    pub open spec fn decodes(&self, p: Seq<u8>) -> bool {
        &&& p.len() >= 1
        &&& p[0] == self.type_byte()
        &&& match self {
            GameServerMessage::PlayerId(m) => m.decodes(p),
            GameServerMessage::PlayerEntering(m) => m.decodes(p),
            GameServerMessage::PlayerLeaving(m) => m.decodes(p),
            GameServerMessage::LargePosition(m) => m.decodes(p),
            GameServerMessage::PlayerDeath(m) => m.decodes(p),
            GameServerMessage::Chat(m) => m.decodes(p),
            GameServerMessage::PrizePickup(m) => m.decodes(p),
            GameServerMessage::ScoreUpdate(m) => m.decodes(p),
            GameServerMessage::PasswordResponse(m) => m.decodes(p),
            GameServerMessage::PowerballGoal(m) => m.decodes(p),
            GameServerMessage::Voice(m) => m.decodes(p),
            GameServerMessage::PlayerFrequencyChange(m) => m.decodes(p),
            GameServerMessage::TurretLinkCreate(m) => m.decodes(p),
            GameServerMessage::ArenaSettings(m) => m.decodes(p),
            GameServerMessage::FileTransfer(m) => m.decodes(p),
            GameServerMessage::FlagPosition(m) => m.decodes(p),
            GameServerMessage::FlagClaim(m) => m.decodes(p),
            GameServerMessage::FlagVictory(m) => m.decodes(p),
            GameServerMessage::TurretLinkDestroy(m) => m.decodes(p),
            GameServerMessage::FlagDrop(m) => m.decodes(p),
            GameServerMessage::SynchronizationRequest(m) => m.decodes(p),
            GameServerMessage::RequestFile(m) => m.decodes(p),
            GameServerMessage::ResetScore(m) => m.decodes(p),
            GameServerMessage::SpectateData(m) => m.decodes(p),
            GameServerMessage::PlayerTeamAndShipChange(m) => m.decodes(p),
            GameServerMessage::SelfBannerChanged(m) => m.decodes(p),
            GameServerMessage::PlayerBannerChanged(m) => m.decodes(p),
            GameServerMessage::CollectedPrize(m) => m.decodes(p),
            GameServerMessage::BrickDrop(m) => m.decodes(p),
            GameServerMessage::TurfFlagUpdate(m) => m.decodes(p),
            GameServerMessage::FlagReward(m) => m.decodes(p),
            GameServerMessage::SpeedGameOver(m) => m.decodes(p),
            GameServerMessage::ToggleUfo(m) => m.decodes(p),
            GameServerMessage::SmallPosition(m) => m.decodes(p),
            GameServerMessage::MapInformation(m) => m.decodes(p),
            GameServerMessage::CompressedMap(m) => m.decodes(p),
            GameServerMessage::KothSetTimer(m) => m.decodes(p),
            GameServerMessage::KothReset(m) => m.decodes(p),
            GameServerMessage::KothAddTime(m) => m.decodes(p),
            GameServerMessage::PowerballPosition(m) => m.decodes(p),
            GameServerMessage::ArenaDirectory(m) => m.decodes(p),
            GameServerMessage::ZoneBanner(m) => m.decodes(p),
            GameServerMessage::SetShipCoordinates(m) => m.decodes(p),
            GameServerMessage::CustomLoginFailure(m) => m.decodes(p),
            GameServerMessage::ContinuumVersion(m) => m.decodes(p),
            _ => true,
        }
    }

}

/// Why a game packet is refused, if it is: its type byte names no
/// message, or the message named is cut short or malformed.
pub open spec fn game_packet_error(p: Seq<u8>) -> Option<DecodeError>
    recommends
        p.len() >= 1,
{
    if p[0] == 0x01 {
        PlayerIdMessage::decode_error(p)
    } else if p[0] == 0x02 {
        None
    } else if p[0] == 0x03 {
        PlayerEnteringMessage::decode_error(p)
    } else if p[0] == 0x04 {
        PlayerLeavingMessage::decode_error(p)
    } else if p[0] == 0x05 {
        LargePositionMessage::decode_error(p)
    } else if p[0] == 0x06 {
        PlayerDeathMessage::decode_error(p)
    } else if p[0] == 0x07 {
        ChatMessage::decode_error(p)
    } else if p[0] == 0x08 {
        PrizePickupMessage::decode_error(p)
    } else if p[0] == 0x09 {
        ScoreUpdateMessage::decode_error(p)
    } else if p[0] == 0x0a {
        PasswordResponseMessage::decode_error(p)
    } else if p[0] == 0x0b {
        PowerballGoalMessage::decode_error(p)
    } else if p[0] == 0x0c {
        VoiceMessage::decode_error(p)
    } else if p[0] == 0x0d {
        PlayerFrequencyChangeMessage::decode_error(p)
    } else if p[0] == 0x0e {
        TurretLinkCreateMessage::decode_error(p)
    } else if p[0] == 0x0f {
        arena_settings_error(p)
    } else if p[0] == 0x10 {
        FileTransferMessage::decode_error(p)
    } else if p[0] == 0x11 {
        None
    } else if p[0] == 0x12 {
        FlagPositionMessage::decode_error(p)
    } else if p[0] == 0x13 {
        FlagClaimMessage::decode_error(p)
    } else if p[0] == 0x14 {
        FlagVictoryMessage::decode_error(p)
    } else if p[0] == 0x15 {
        TurretLinkDestroyMessage::decode_error(p)
    } else if p[0] == 0x16 {
        FlagDropMessage::decode_error(p)
    } else if p[0] == 0x17 {
        None
    } else if p[0] == 0x18 {
        SynchronizationRequestMessage::decode_error(p)
    } else if p[0] == 0x19 {
        RequestFileMessage::decode_error(p)
    } else if p[0] == 0x1a {
        ResetScoreMessage::decode_error(p)
    } else if p[0] == 0x1b {
        None
    } else if p[0] == 0x1c {
        SpectateDataMessage::decode_error(p)
    } else if p[0] == 0x1d {
        PlayerTeamAndShipChangeMessage::decode_error(p)
    } else if p[0] == 0x1e {
        SelfBannerChangedMessage::decode_error(p)
    } else if p[0] == 0x1f {
        PlayerBannerChangedMessage::decode_error(p)
    } else if p[0] == 0x20 {
        CollectedPrizeMessage::decode_error(p)
    } else if p[0] == 0x21 {
        BrickDropMessage::decode_error(p)
    } else if p[0] == 0x22 {
        TurfFlagUpdateMessage::decode_error(p)
    } else if p[0] == 0x23 {
        FlagRewardMessage::decode_error(p)
    } else if p[0] == 0x24 {
        SpeedGameOverMessage::decode_error(p)
    } else if p[0] == 0x25 {
        ToggleUfoMessage::decode_error(p)
    } else if p[0] == 0x26 {
        None
    } else if p[0] == 0x27 {
        None
    } else if p[0] == 0x28 {
        SmallPositionMessage::decode_error(p)
    } else if p[0] == 0x29 {
        MapInformationMessage::decode_error(p)
    } else if p[0] == 0x2a {
        CompressedMapMessage::decode_error(p)
    } else if p[0] == 0x2b {
        KothSetTimerMessage::decode_error(p)
    } else if p[0] == 0x2c {
        KothResetMessage::decode_error(p)
    } else if p[0] == 0x2d {
        KothAddTimeMessage::decode_error(p)
    } else if p[0] == 0x2e {
        PowerballPositionMessage::decode_error(p)
    } else if p[0] == 0x2f {
        ArenaDirectoryMessage::decode_error(p)
    } else if p[0] == 0x30 {
        ZoneBannerMessage::decode_error(p)
    } else if p[0] == 0x31 {
        None
    } else if p[0] == 0x32 {
        SetShipCoordinatesMessage::decode_error(p)
    } else if p[0] == 0x33 {
        CustomLoginFailureMessage::decode_error(p)
    } else if p[0] == 0x34 {
        ContinuumVersionMessage::decode_error(p)
    } else if p[0] == 0x35 {
        None
    } else if p[0] == 0x36 {
        None
    } else if p[0] == 0x37 {
        None
    } else if p[0] == 0x38 {
        None
    } else if p[0] == 0x39 {
        None
    } else if p[0] == 0x3a {
        None
    } else if p[0] == 0x3b {
        None
    } else if p[0] == 0x3c {
        None
    } else {
        Some(DecodeError::InvalidEnum(MessageKind::Game(p[0])))
    }
}

fn copy_array_96(packet: &[u8], from: usize) -> (r: [u8; 96])
    requires
        from + 96 <= packet@.len(),
    ensures
        r@ == packet@.subrange(from as int, from + 96),
{
    let len: usize = packet.len();
    let mut r: [u8; 96] = [0; 96];
    let mut i: usize = 0;
    while i < 96
        invariant
            i <= 96,
            len == packet@.len(),
            from + 96 <= len,
            forall|j: int| 0 <= j < i ==> r@[j] == packet@[from + j],
        decreases 96 - i,
    {
        r[i] = packet[from + i];
        i += 1;
    }
    r
}

impl EncryptionResponseMessage {
    /// Why a packet is refused as this message, if it is.
    pub open spec fn decode_error(p: Seq<u8>) -> Option<DecodeError> {
        if p.len() < 6 {
            Some(DecodeError::TooShort(MessageKind::Core(0x02)))
        } else {
            None
        }
    }

    /// The key is the 32-bit field after the two header bytes.
    pub open spec fn decodes(&self, p: Seq<u8>) -> bool {
        self.key == le_u32(p, 2)
    }

    /// Decodes the message from a whole packet, header included.
    pub fn parse(packet: &[u8]) -> (r: Result<EncryptionResponseMessage, DecodeError>)
        ensures
            match r {
                Ok(m) => Self::decode_error(packet@) is None && m.decodes(packet@),
                Err(e) => Self::decode_error(packet@) == Some(e),
            },
    {
        if packet.len() < 6 {
            return Err(DecodeError::TooShort(MessageKind::Core(0x02)));
        }
        Ok(EncryptionResponseMessage { key: read_u32(packet, 2) })
    }
}

impl ItemSet {
    /// The item set held by 32 packed bits.
    pub open spec fn spec_parse(data: u32) -> ItemSet {
        ItemSet {
            shield_active: (data & 1) != 0,
            super_active: ((data >> 1) & 1) != 0,
            bursts: ((data >> 2) & 0x0F) as u8,
            repels: ((data >> 6) & 0x0F) as u8,
            thors: ((data >> 10) & 0x0F) as u8,
            bricks: ((data >> 14) & 0x0F) as u8,
            decoys: ((data >> 18) & 0x0F) as u8,
            rockets: ((data >> 22) & 0x0F) as u8,
            portals: ((data >> 26) & 0x0F) as u8,
        }
    }

    /// The set with nothing in it.
    pub open spec fn spec_empty() -> ItemSet {
        ItemSet {
            shield_active: false,
            super_active: false,
            bursts: 0,
            repels: 0,
            thors: 0,
            bricks: 0,
            decoys: 0,
            rockets: 0,
            portals: 0,
        }
    }

    #[verifier::when_used_as_spec(spec_empty)]
    pub fn empty() -> (r: ItemSet)
        ensures
            r == Self::spec_empty(),
    {
        ItemSet {
            shield_active: false,
            super_active: false,
            bursts: 0,
            repels: 0,
            thors: 0,
            bricks: 0,
            decoys: 0,
            rockets: 0,
            portals: 0,
        }
    }

    #[verifier::when_used_as_spec(spec_parse)]
    pub fn parse(data: u32) -> (r: ItemSet)
        ensures
            r == Self::spec_parse(data),
    {
        ItemSet {
            shield_active: (data & 1) != 0,
            super_active: ((data >> 1) & 1) != 0,
            bursts: ((data >> 2) & 0x0F) as u8,
            repels: ((data >> 6) & 0x0F) as u8,
            thors: ((data >> 10) & 0x0F) as u8,
            bricks: ((data >> 14) & 0x0F) as u8,
            decoys: ((data >> 18) & 0x0F) as u8,
            rockets: ((data >> 22) & 0x0F) as u8,
            portals: ((data >> 26) & 0x0F) as u8,
        }
    }
}

impl ExtraPositionData {
    /// The extra data that follow the fixed fields at `base`: energy, lag
    /// and timer of 16 bits each, then the items, each present only when
    /// the packet reaches its end, and zero or empty otherwise.
    pub open spec fn at(p: Seq<u8>, base: int) -> ExtraPositionData {
        ExtraPositionData {
            energy: if p.len() >= base + 2 {
                le_u16(p, base)
            } else {
                0
            },
            s2c_lag: if p.len() >= base + 4 {
                le_u16(p, base + 2)
            } else {
                0
            },
            timer: if p.len() >= base + 6 {
                le_u16(p, base + 4)
            } else {
                0
            },
            items: if p.len() >= base + 10 {
                ItemSet::spec_parse(le_u32(p, base + 6))
            } else {
                ItemSet::spec_empty()
            },
        }
    }

    /// Decodes the extra data that follow the fixed fields at `base`.
    pub fn parse(packet: &[u8], base: usize) -> (r: ExtraPositionData)
        requires
            base <= 1000,
        ensures
            r == Self::at(packet@, base as int),
    {
        let len: usize = packet.len();
        ExtraPositionData {
            energy: if len >= base + 2 {
                read_u16(packet, base)
            } else {
                0
            },
            s2c_lag: if len >= base + 4 {
                read_u16(packet, base + 2)
            } else {
                0
            },
            timer: if len >= base + 6 {
                read_u16(packet, base + 4)
            } else {
                0
            },
            items: if len >= base + 10 {
                ItemSet::parse(read_u32(packet, base + 6))
            } else {
                ItemSet::empty()
            },
        }
    }
}

impl LargePositionMessage {
    /// Why a packet is refused as this message, if it is: the fixed
    /// fields take 21 bytes.
    pub open spec fn decode_error(p: Seq<u8>) -> Option<DecodeError> {
        short_of(p, 21, MessageKind::Game(0x05))
    }

    /// Every field holds what packet `p` says at the field's place; the
    /// extra data start at byte 21.
    pub open spec fn decodes(&self, p: Seq<u8>) -> bool {
        &&& self.direction == p[1]
        &&& self.timestamp == le_u16(p, 2)
        &&& self.x == le_u16(p, 4)
        &&& self.y_velocity == le_i16(p, 6)
        &&& self.player_id == le_u16(p, 8)
        &&& self.x_velocity == le_i16(p, 10)
        &&& self.checksum == p[12]
        &&& self.status == p[13]
        &&& self.ping == p[14]
        &&& self.y == le_u16(p, 15)
        &&& self.bounty == le_u16(p, 17)
        &&& self.weapon == le_u16(p, 19)
        &&& self.extra == Some(ExtraPositionData::at(p, 21))
    }

    /// Decodes the message from a whole packet, type byte included.
    pub fn parse(packet: &[u8]) -> (r: Result<LargePositionMessage, DecodeError>)
        ensures
            match r {
                Ok(m) => Self::decode_error(packet@) is None && m.decodes(packet@),
                Err(e) => Self::decode_error(packet@) == Some(e),
            },
    {
        if packet.len() < 21 {
            return Err(DecodeError::TooShort(MessageKind::Game(0x05)));
        }
        Ok(
            LargePositionMessage {
                direction: packet[1],
                timestamp: read_u16(packet, 2),
                x: read_u16(packet, 4),
                y_velocity: read_i16(packet, 6),
                player_id: read_u16(packet, 8),
                x_velocity: read_i16(packet, 10),
                checksum: packet[12],
                status: packet[13],
                ping: packet[14],
                y: read_u16(packet, 15),
                bounty: read_u16(packet, 17),
                weapon: read_u16(packet, 19),
                extra: Some(ExtraPositionData::parse(packet, 21)),
            },
        )
    }
}

impl SmallPositionMessage {
    /// Why a packet is refused as this message, if it is: the fixed
    /// fields take 16 bytes.
    pub open spec fn decode_error(p: Seq<u8>) -> Option<DecodeError> {
        short_of(p, 16, MessageKind::Game(0x28))
    }

    /// Every field holds what packet `p` says at the field's place; extra
    /// data are present when the packet goes beyond byte 16.
    pub open spec fn decodes(&self, p: Seq<u8>) -> bool {
        &&& self.direction == p[1]
        &&& self.timestamp == le_u16(p, 2)
        &&& self.x == le_u16(p, 4)
        &&& self.ping == p[6]
        &&& self.bounty == p[7]
        &&& self.player_id == p[8]
        &&& self.status == p[9]
        &&& self.y_velocity == le_i16(p, 10)
        &&& self.y == le_u16(p, 12)
        &&& self.x_velocity == le_i16(p, 14)
        &&& self.extra == (if p.len() > 16 {
            Some(ExtraPositionData::at(p, 16))
        } else {
            None
        })
    }

    /// Decodes the message from a whole packet, type byte included.
    pub fn parse(packet: &[u8]) -> (r: Result<SmallPositionMessage, DecodeError>)
        ensures
            match r {
                Ok(m) => Self::decode_error(packet@) is None && m.decodes(packet@),
                Err(e) => Self::decode_error(packet@) == Some(e),
            },
    {
        if packet.len() < 16 {
            return Err(DecodeError::TooShort(MessageKind::Game(0x28)));
        }
        Ok(
            SmallPositionMessage {
                direction: packet[1],
                timestamp: read_u16(packet, 2),
                x: read_u16(packet, 4),
                ping: packet[6],
                bounty: packet[7],
                player_id: packet[8],
                status: packet[9],
                y_velocity: read_i16(packet, 10),
                y: read_u16(packet, 12),
                x_velocity: read_i16(packet, 14),
                extra: if packet.len() > 16 {
                    Some(ExtraPositionData::parse(packet, 16))
                } else {
                    None
                },
            },
        )
    }
}

impl ChatKind {
    /// The kind that a byte names; a byte above 9 reads as an arena
    /// message.
    pub open spec fn spec_from_wire(v: u8) -> ChatKind {
        match v {
            1 => ChatKind::PublicMacro,
            2 => ChatKind::Public,
            3 => ChatKind::Team,
            4 => ChatKind::Frequency,
            5 => ChatKind::Private,
            6 => ChatKind::Warning,
            7 => ChatKind::RemotePrivate,
            8 => ChatKind::Error,
            9 => ChatKind::Channel,
            _ => ChatKind::Arena,
        }
    }

    /// The byte that names this kind: 0 for arena messages up to 9 for
    /// channel messages.
    pub open spec fn spec_wire_value(&self) -> u8 {
        match self {
            ChatKind::Arena => 0,
            ChatKind::PublicMacro => 1,
            ChatKind::Public => 2,
            ChatKind::Team => 3,
            ChatKind::Frequency => 4,
            ChatKind::Private => 5,
            ChatKind::Warning => 6,
            ChatKind::RemotePrivate => 7,
            ChatKind::Error => 8,
            ChatKind::Channel => 9,
        }
    }

    #[verifier::when_used_as_spec(spec_from_wire)]
    pub fn from_wire(v: u8) -> (r: ChatKind)
        ensures
            r == Self::spec_from_wire(v),
    {
        match v {
            1 => ChatKind::PublicMacro,
            2 => ChatKind::Public,
            3 => ChatKind::Team,
            4 => ChatKind::Frequency,
            5 => ChatKind::Private,
            6 => ChatKind::Warning,
            7 => ChatKind::RemotePrivate,
            8 => ChatKind::Error,
            9 => ChatKind::Channel,
            _ => ChatKind::Arena,
        }
    }

    #[verifier::when_used_as_spec(spec_wire_value)]
    pub fn wire_value(&self) -> (r: u8)
        ensures
            r == self.spec_wire_value(),
    {
        match self {
            ChatKind::Arena => 0,
            ChatKind::PublicMacro => 1,
            ChatKind::Public => 2,
            ChatKind::Team => 3,
            ChatKind::Frequency => 4,
            ChatKind::Private => 5,
            ChatKind::Warning => 6,
            ChatKind::RemotePrivate => 7,
            ChatKind::Error => 8,
            ChatKind::Channel => 9,
        }
    }

    /// Reading back a kind's byte gives the kind.
    pub proof fn lemma_wire_roundtrip(kind: ChatKind)
        ensures
            Self::spec_from_wire(kind.spec_wire_value()) == kind,
    {
    }
}

impl ChatMessage {
    /// Why a packet is refused as this message, if it is.
    pub open spec fn decode_error(p: Seq<u8>) -> Option<DecodeError> {
        if p.len() < 5 {
            Some(DecodeError::TooShort(MessageKind::Game(0x07)))
        } else if !valid_utf8(p.subrange(5, p.len() as int)) {
            Some(DecodeError::InvalidUtf8(MessageKind::Game(0x07)))
        } else {
            None
        }
    }

    /// Every field holds what packet `p` says at the field's place; the
    /// text is everything from byte 5 on.
    pub open spec fn decodes(&self, p: Seq<u8>) -> bool {
        &&& self.kind == ChatKind::spec_from_wire(p[1])
        &&& self.sound == p[2]
        &&& self.sender == le_u16(p, 3)
        &&& self.message@ == decode_utf8(p.subrange(5, p.len() as int))
    }

    /// Decodes the message from a whole packet, type byte included.
    pub fn parse(packet: &[u8]) -> (r: Result<ChatMessage, DecodeError>)
        ensures
            match r {
                Ok(m) => Self::decode_error(packet@) is None && m.decodes(packet@),
                Err(e) => Self::decode_error(packet@) == Some(e),
            },
    {
        if packet.len() < 5 {
            return Err(DecodeError::TooShort(MessageKind::Game(0x07)));
        }
        let message = match parse_text(&packet[5..packet.len()]) {
            Some(text) => text,
            None => return Err(DecodeError::InvalidUtf8(MessageKind::Game(0x07))),
        };
        Ok(
            ChatMessage {
                kind: ChatKind::from_wire(packet[1]),
                sound: packet[2],
                sender: read_u16(packet, 3),
                message,
            },
        )
    }
}

impl LoginResponse {
    /// The verdict that a response code names. Code 9 repeats the
    /// verdict of code 5, and every code above `0x13` reads as
    /// restricted.
    pub open spec fn spec_from_wire(v: u8) -> LoginResponse {
        match v {
            0x00 => LoginResponse::Okay,
            0x01 => LoginResponse::Unregistered,
            0x02 => LoginResponse::BadPassword,
            0x03 => LoginResponse::ArenaFull,
            0x04 => LoginResponse::LockedOut,
            0x05 => LoginResponse::PermissionOnly,
            0x06 => LoginResponse::SpectateOnly,
            0x07 => LoginResponse::HighPoints,
            0x08 => LoginResponse::ConnectionSlow,
            0x09 => LoginResponse::PermissionOnly,
            0x0A => LoginResponse::ServerFull,
            0x0B => LoginResponse::InvalidName,
            0x0C => LoginResponse::OffensiveName,
            0x0D => LoginResponse::NoBiller,
            0x0E => LoginResponse::ServerBusy,
            0x0F => LoginResponse::UsageLow,
            0x10 => LoginResponse::Restricted,
            0x11 => LoginResponse::Demo,
            0x12 => LoginResponse::TooManyDemo,
            0x13 => LoginResponse::DemoDisabled,
            _ => LoginResponse::Restricted,
        }
    }

    #[verifier::when_used_as_spec(spec_from_wire)]
    pub fn from_wire(v: u8) -> (r: LoginResponse)
        ensures
            r == Self::spec_from_wire(v),
    {
        match v {
            0x00 => LoginResponse::Okay,
            0x01 => LoginResponse::Unregistered,
            0x02 => LoginResponse::BadPassword,
            0x03 => LoginResponse::ArenaFull,
            0x04 => LoginResponse::LockedOut,
            0x05 => LoginResponse::PermissionOnly,
            0x06 => LoginResponse::SpectateOnly,
            0x07 => LoginResponse::HighPoints,
            0x08 => LoginResponse::ConnectionSlow,
            0x09 => LoginResponse::PermissionOnly,
            0x0A => LoginResponse::ServerFull,
            0x0B => LoginResponse::InvalidName,
            0x0C => LoginResponse::OffensiveName,
            0x0D => LoginResponse::NoBiller,
            0x0E => LoginResponse::ServerBusy,
            0x0F => LoginResponse::UsageLow,
            0x10 => LoginResponse::Restricted,
            0x11 => LoginResponse::Demo,
            0x12 => LoginResponse::TooManyDemo,
            0x13 => LoginResponse::DemoDisabled,
            _ => LoginResponse::Restricted,
        }
    }
}

impl PasswordResponseMessage {
    /// Why a packet is refused as this message, if it is.
    pub open spec fn decode_error(p: Seq<u8>) -> Option<DecodeError> {
        short_of(p, 28, MessageKind::Game(0x0A))
    }

    /// Every field holds what packet `p` says at the field's place.
    pub open spec fn decodes(&self, p: Seq<u8>) -> bool {
        &&& self.response == LoginResponse::spec_from_wire(p[1])
        &&& self.server_version == le_u32(p, 2)
        &&& self.registration_request == (p[19] != 0)
        &&& self.news_checksum == le_u32(p, 24)
    }

    /// Decodes the message from a whole packet, type byte included.
    pub fn parse(packet: &[u8]) -> (r: Result<PasswordResponseMessage, DecodeError>)
        ensures
            match r {
                Ok(m) => Self::decode_error(packet@) is None && m.decodes(packet@),
                Err(e) => Self::decode_error(packet@) == Some(e),
            },
    {
        if packet.len() < 28 {
            return Err(DecodeError::TooShort(MessageKind::Game(0x0A)));
        }
        Ok(
            PasswordResponseMessage {
                response: LoginResponse::from_wire(packet[1]),
                server_version: read_u32(packet, 2),
                registration_request: packet[19] != 0,
                news_checksum: read_u32(packet, 24),
            },
        )
    }
}

impl SpectateDataMessage {
    /// Why a packet is refused as this message, if it is.
    pub open spec fn decode_error(p: Seq<u8>) -> Option<DecodeError> {
        short_of(p, 2, MessageKind::Game(0x1C))
    }

    /// A packet of two bytes carries the extra-position flag; a longer one
    /// carries a player id.
    pub open spec fn decodes(&self, p: Seq<u8>) -> bool {
        *self == (if p.len() == 2 {
            SpectateDataMessage::ExtraPositionInfo(p[1] != 0)
        } else {
            SpectateDataMessage::Player(le_u16(p, 1))
        })
    }

    /// Decodes the message from a whole packet, type byte included.
    pub fn parse(packet: &[u8]) -> (r: Result<SpectateDataMessage, DecodeError>)
        ensures
            match r {
                Ok(m) => Self::decode_error(packet@) is None && m.decodes(packet@),
                Err(e) => Self::decode_error(packet@) == Some(e),
            },
    {
        if packet.len() < 2 {
            return Err(DecodeError::TooShort(MessageKind::Game(0x1C)));
        }
        if packet.len() == 2 {
            return Ok(SpectateDataMessage::ExtraPositionInfo(packet[1] != 0));
        }
        Ok(SpectateDataMessage::Player(read_u16(packet, 1)))
    }
}

impl PlayerEntering {
    /// Every field holds what the 64-byte record `rec` says at the
    /// field's place.
    pub open spec fn decodes(&self, rec: Seq<u8>) -> bool {
        &&& self.ship == Ship::spec_from_network_value(rec[1])
        &&& self.name@ == decode_utf8(rec.subrange(3, 23))
        &&& self.squad@ == decode_utf8(rec.subrange(23, 43))
        &&& self.kill_points == le_u32(rec, 43)
        &&& self.flag_points == le_u32(rec, 47)
        &&& self.player_id == le_u16(rec, 51)
        &&& self.frequency == le_u16(rec, 53)
        &&& self.kills == le_u16(rec, 55)
        &&& self.deaths == le_u16(rec, 57)
        &&& self.attach_parent == le_u16(rec, 59)
        &&& self.flag_count == le_u16(rec, 61)
        &&& self.has_koth == (rec[63] != 0)
    }

    /// Both text fields of the record are UTF-8.
    pub open spec fn texts_valid(rec: Seq<u8>) -> bool {
        valid_utf8(rec.subrange(3, 23)) && valid_utf8(rec.subrange(23, 43))
    }

    /// Decodes one record of exactly 64 bytes; nothing when a text field
    /// is not UTF-8.
    pub fn parse(rec: &[u8]) -> (r: Option<PlayerEntering>)
        requires
            rec@.len() == 64,
        ensures
            r is Some <==> Self::texts_valid(rec@),
            r is Some ==> r.unwrap().decodes(rec@),
    {
        let name = match parse_text(&rec[3..23]) {
            Some(text) => text,
            None => return None,
        };
        let squad = match parse_text(&rec[23..43]) {
            Some(text) => text,
            None => return None,
        };
        Some(
            PlayerEntering {
                ship: Ship::from_network_value(rec[1]),
                name,
                squad,
                kill_points: read_u32(rec, 43),
                flag_points: read_u32(rec, 47),
                player_id: read_u16(rec, 51),
                frequency: read_u16(rec, 53),
                kills: read_u16(rec, 55),
                deaths: read_u16(rec, 57),
                attach_parent: read_u16(rec, 59),
                flag_count: read_u16(rec, 61),
                has_koth: rec[63] != 0,
            },
        )
    }
}

impl PlayerEnteringMessage {
    /// The `i`-th 64-byte record of packet `p`, counted from the packet's
    /// first byte.
    pub open spec fn record(p: Seq<u8>, i: int) -> Seq<u8> {
        p.subrange(64 * i, 64 * i + 64)
    }

    /// Why a packet is refused as this message, if it is: one of its
    /// whole records holds text that is not UTF-8.
    pub open spec fn decode_error(p: Seq<u8>) -> Option<DecodeError> {
        if exists|i: int|
            0 <= i < p.len() / 64 && !PlayerEntering::texts_valid(#[trigger] Self::record(p, i)) {
            Some(DecodeError::InvalidUtf8(MessageKind::Game(0x03)))
        } else {
            None
        }
    }

    /// There is one player for every whole record, in the records' order;
    /// bytes after the last whole record are not read.
    pub open spec fn decodes(&self, p: Seq<u8>) -> bool {
        &&& self.players@.len() == p.len() / 64
        &&& forall|i: int|
            0 <= i < self.players@.len() ==> (#[trigger] self.players@[i]).decodes(
                Self::record(p, i),
            )
    }

    /// Decodes the message from a whole packet, type byte included.
    pub fn parse(packet: &[u8]) -> (r: Result<PlayerEnteringMessage, DecodeError>)
        ensures
            match r {
                Ok(m) => Self::decode_error(packet@) is None && m.decodes(packet@),
                Err(e) => Self::decode_error(packet@) == Some(e),
            },
    {
        let len: usize = packet.len();
        let count: usize = len / 64;
        let mut players: Vec<PlayerEntering> = Vec::new();
        let mut i: usize = 0;
        while i < count
            invariant
                len == packet@.len(),
                count == len / 64,
                i <= count,
                players@.len() == i,
                forall|j: int|
                    0 <= j < i ==> PlayerEntering::texts_valid(#[trigger] Self::record(packet@, j)),
                forall|j: int|
                    0 <= j < i ==> (#[trigger] players@[j]).decodes(Self::record(packet@, j)),
            decreases count - i,
        {
            match PlayerEntering::parse(&packet[64 * i..64 * i + 64]) {
                Some(player) => {
                    players.push(player);
                },
                None => {
                    assert(!PlayerEntering::texts_valid(Self::record(packet@, i as int)));
                    return Err(DecodeError::InvalidUtf8(MessageKind::Game(0x03)));
                },
            }
            i += 1;
        }
        Ok(PlayerEnteringMessage { players })
    }
}

impl TurfFlagUpdateMessage {
    /// Why a packet is refused as this message, if it is.
    pub open spec fn decode_error(p: Seq<u8>) -> Option<DecodeError> {
        short_of(p, 3, MessageKind::Game(0x22))
    }

    /// The teams are the 16-bit words that follow the type byte, as many
    /// as fit whole.
    pub open spec fn decodes(&self, p: Seq<u8>) -> bool {
        self.flag_teams@ == Seq::new(((p.len() - 1) / 2) as nat, |i: int| le_u16(p, 1 + 2 * i))
    }

    /// Decodes the message from a whole packet, type byte included.
    pub fn parse(packet: &[u8]) -> (r: Result<TurfFlagUpdateMessage, DecodeError>)
        ensures
            match r {
                Ok(m) => Self::decode_error(packet@) is None && m.decodes(packet@),
                Err(e) => Self::decode_error(packet@) == Some(e),
            },
    {
        if packet.len() < 3 {
            return Err(DecodeError::TooShort(MessageKind::Game(0x22)));
        }
        let len: usize = packet.len();
        let count: usize = (len - 1) / 2;
        let mut flag_teams: Vec<u16> = Vec::new();
        let mut i: usize = 0;
        while i < count
            invariant
                len == packet@.len(),
                len >= 3,
                count == (len - 1) / 2,
                i <= count,
                flag_teams@.len() == i,
                forall|j: int| 0 <= j < i ==> flag_teams@[j] == le_u16(packet@, 1 + 2 * j),
            decreases count - i,
        {
            flag_teams.push(read_u16(packet, 1 + 2 * i));
            i += 1;
        }
        assert(flag_teams@ =~= Seq::new(
            ((packet@.len() - 1) / 2) as nat,
            |i: int| le_u16(packet@, 1 + 2 * i),
        ));
        Ok(TurfFlagUpdateMessage { flag_teams })
    }
}

impl FlagRewardMessage {
    /// Why a packet is refused as this message, if it is.
    pub open spec fn decode_error(p: Seq<u8>) -> Option<DecodeError> {
        short_of(p, 5, MessageKind::Game(0x23))
    }

    /// The rewards are the pairs of 16-bit words that follow the type
    /// byte, as many as fit whole: a team, then its points.
    pub open spec fn decodes(&self, p: Seq<u8>) -> bool {
        self.rewards@ == Seq::new(
            ((p.len() - 1) / 4) as nat,
            |i: int| FlagReward { frequency: le_u16(p, 1 + 4 * i), points: le_u16(p, 3 + 4 * i) },
        )
    }

    /// Decodes the message from a whole packet, type byte included.
    pub fn parse(packet: &[u8]) -> (r: Result<FlagRewardMessage, DecodeError>)
        ensures
            match r {
                Ok(m) => Self::decode_error(packet@) is None && m.decodes(packet@),
                Err(e) => Self::decode_error(packet@) == Some(e),
            },
    {
        if packet.len() < 5 {
            return Err(DecodeError::TooShort(MessageKind::Game(0x23)));
        }
        let len: usize = packet.len();
        let count: usize = (len - 1) / 4;
        let mut rewards: Vec<FlagReward> = Vec::new();
        let mut i: usize = 0;
        while i < count
            invariant
                len == packet@.len(),
                count == (len - 1) / 4,
                len >= 5,
                i <= count,
                rewards@.len() == i,
                forall|j: int|
                    0 <= j < i ==> rewards@[j] == (FlagReward {
                        frequency: le_u16(packet@, 1 + 4 * j),
                        points: le_u16(packet@, 3 + 4 * j),
                    }),
            decreases count - i,
        {
            rewards.push(
                FlagReward {
                    frequency: read_u16(packet, 1 + 4 * i),
                    points: read_u16(packet, 3 + 4 * i),
                },
            );
            i += 1;
        }
        assert(rewards@ =~= Seq::new(
            ((packet@.len() - 1) / 4) as nat,
            |i: int|
                FlagReward { frequency: le_u16(packet@, 1 + 4 * i), points: le_u16(packet@, 3 + 4 * i) },
        ));
        Ok(FlagRewardMessage { rewards })
    }
}

/// Why a packet is refused as the arena settings, if it is: the record is
/// exactly 1428 bytes long.
pub open spec fn arena_settings_error(p: Seq<u8>) -> Option<DecodeError> {
    if p.len() < ARENA_SETTINGS_SIZE {
        Some(DecodeError::TooShort(MessageKind::Game(0x0F)))
    } else if p.len() > ARENA_SETTINGS_SIZE {
        Some(DecodeError::TooLong(MessageKind::Game(0x0F)))
    } else {
        None
    }
}

fn parse_arena_settings(packet: &[u8]) -> (r: Result<Box<ArenaSettings>, DecodeError>)
    ensures
        match r {
            Ok(m) => arena_settings_error(packet@) is None && m.decodes(packet@),
            Err(e) => arena_settings_error(packet@) == Some(e),
        },
{
    if packet.len() > ARENA_SETTINGS_SIZE {
        return Err(DecodeError::TooLong(MessageKind::Game(0x0F)));
    }
    match ArenaSettings::parse(packet) {
        Some(settings) => Ok(Box::new(settings)),
        None => Err(DecodeError::TooShort(MessageKind::Game(0x0F))),
    }
}

/// The place of the first zero byte of `data` at or after `from`, or the
/// length of `data` when there is none.
pub open spec fn first_nul(data: Seq<u8>, from: nat) -> nat
    decreases data.len() - from,
{
    if from >= data.len() {
        data.len()
    } else if data[from as int] == 0 {
        from
    } else {
        first_nul(data, from + 1)
    }
}

/// The population that a directory count stands for: its absolute value.
pub open spec fn population(count: i16) -> u16 {
    if count < 0 {
        (-(count as int)) as u16
    } else {
        count as u16
    }
}

/// What a directory entry holds: name, population, and whether it is the
/// arena the client is in.
pub type DirectoryEntryModel = (Seq<char>, u16, bool);

/// The entries that the body of an arena directory holds, or why the body
/// is refused. An entry is a zero-terminated name and a signed 16-bit
/// count; a negative count marks the client's own arena. Fewer than three
/// bytes at the end are not read.
pub open spec fn directory_entries(data: Seq<u8>) -> Result<Seq<DirectoryEntryModel>, DecodeError>
    decreases data.len(),
{
    if data.len() < 3 {
        Ok(Seq::empty())
    } else {
        let end = first_nul(data, 0);
        if end >= data.len() {
            Err(DecodeError::TooShort(MessageKind::Game(0x2F)))
        } else if !valid_utf8(data.subrange(0, end as int)) {
            Err(DecodeError::InvalidUtf8(MessageKind::Game(0x2F)))
        } else if data.len() < end + 3 {
            Err(DecodeError::TooShort(MessageKind::Game(0x2F)))
        } else {
            let count = le_i16(data, end as int + 1);
            let entry = (decode_utf8(data.subrange(0, end as int)), population(count), count < 0);
            match directory_entries(data.subrange(end as int + 3, data.len() as int)) {
                Ok(rest) => Ok(seq![entry] + rest),
                Err(e) => Err(e),
            }
        }
    }
}

/// The outcome of a directory body of which `done` has been decoded and
/// `rest` is the outcome of what remains.
pub open spec fn directory_after(
    done: Seq<DirectoryEntryModel>,
    rest: Result<Seq<DirectoryEntryModel>, DecodeError>,
) -> Result<Seq<DirectoryEntryModel>, DecodeError> {
    match rest {
        Ok(more) => Ok(done + more),
        Err(e) => Err(e),
    }
}

proof fn lemma_first_nul(data: Seq<u8>, from: nat, found: nat)
    requires
        from <= found <= data.len(),
        forall|j: int| from <= j < found ==> data[j] != 0,
        found < data.len() ==> data[found as int] == 0,
    ensures
        first_nul(data, from) == found,
    decreases found - from,
{
    if from < found {
        lemma_first_nul(data, from + 1, found);
    }
}

impl ArenaDirectoryEntry {
    pub open spec fn view(&self) -> DirectoryEntryModel {
        (self.name@, self.count, self.current)
    }
}

impl ArenaDirectoryMessage {
    /// The entries as plain values.
    pub open spec fn view(&self) -> Seq<DirectoryEntryModel> {
        self.entries@.map_values(|e: ArenaDirectoryEntry| e@)
    }

    /// Why a packet is refused as this message, if it is.
    pub open spec fn decode_error(p: Seq<u8>) -> Option<DecodeError> {
        if p.len() < 1 {
            Some(DecodeError::TooShort(MessageKind::Game(0x2F)))
        } else {
            match directory_entries(p.subrange(1, p.len() as int)) {
                Ok(_) => None,
                Err(e) => Some(e),
            }
        }
    }

    /// The entries are those that the bytes after the type byte hold.
    pub open spec fn decodes(&self, p: Seq<u8>) -> bool {
        p.len() >= 1 && directory_entries(p.subrange(1, p.len() as int)) == Ok::<
            Seq<DirectoryEntryModel>,
            DecodeError,
        >(self@)
    }

    /// Decodes the message from a whole packet, type byte included.
    pub fn parse(packet: &[u8]) -> (r: Result<ArenaDirectoryMessage, DecodeError>)
        ensures
            match r {
                Ok(m) => Self::decode_error(packet@) is None && m.decodes(packet@),
                Err(e) => Self::decode_error(packet@) == Some(e),
            },
    {
        let len: usize = packet.len();
        if len < 1 {
            return Err(DecodeError::TooShort(MessageKind::Game(0x2F)));
        }
        let ghost body = packet@.subrange(1, len as int);
        let mut entries: Vec<ArenaDirectoryEntry> = Vec::new();
        let mut pos: usize = 1;
        while len - pos >= 3
            invariant
                len == packet@.len(),
                body == packet@.subrange(1, len as int),
                1 <= pos <= len,
                directory_entries(body) == directory_after(
                    entries@.map_values(|e: ArenaDirectoryEntry| e@),
                    directory_entries(packet@.subrange(pos as int, len as int)),
                ),
            decreases len - pos,
        {
            let ghost rest = packet@.subrange(pos as int, len as int);
            let ghost done = entries@.map_values(|e: ArenaDirectoryEntry| e@);
            let mut end: usize = pos;
            while end < len && packet[end] != 0
                invariant
                    len == packet@.len(),
                    pos <= end <= len,
                    forall|j: int| pos <= j < end ==> packet@[j] != 0,
                decreases len - end,
            {
                end += 1;
            }
            proof {
                lemma_first_nul(rest, 0, (end - pos) as nat);
                assert(rest.subrange(0, end - pos) =~= packet@.subrange(pos as int, end as int));
            }
            if end >= len {
                return Err(DecodeError::TooShort(MessageKind::Game(0x2F)));
            }
            let name = match parse_text(&packet[pos..end]) {
                Some(text) => text,
                None => return Err(DecodeError::InvalidUtf8(MessageKind::Game(0x2F))),
            };
            if len - end < 3 {
                return Err(DecodeError::TooShort(MessageKind::Game(0x2F)));
            }
            let count: i16 = read_i16(packet, end + 1);
            let current: bool = count < 0;
            let shown: u16 = if count < 0 {
                (-(count as i32)) as u16
            } else {
                count as u16
            };
            let entry = ArenaDirectoryEntry { name, count: shown, current };
            proof {
                let next = packet@.subrange(end + 3, len as int);
                assert(rest.subrange(end - pos + 3, rest.len() as int) =~= next);
                let after = entries@.push(entry).map_values(|e: ArenaDirectoryEntry| e@);
                match directory_entries(next) {
                    Ok(more) => {
                        assert(done + (seq![entry@] + more) =~= after + more);
                    },
                    Err(_) => {},
                }
            }
            entries.push(entry);
            pos = end + 3;
        }
        Ok(ArenaDirectoryMessage { entries })
    }
}

fn parse_game_below_10(packet: &[u8]) -> (r: Result<GameServerMessage, DecodeError>)
    requires
        packet@.len() >= 1,
        packet@[0] < 0x10,
    ensures
        match r {
            Ok(m) => game_packet_error(packet@) is None && m.decodes(packet@),
            Err(e) => game_packet_error(packet@) == Some(e),
        },
{
    let kind: u8 = packet[0];
    let message = match kind {
        0x01 => GameServerMessage::PlayerId(PlayerIdMessage::parse(packet)?),
        0x02 => GameServerMessage::InGame,
        0x03 => GameServerMessage::PlayerEntering(PlayerEnteringMessage::parse(packet)?),
        0x04 => GameServerMessage::PlayerLeaving(PlayerLeavingMessage::parse(packet)?),
        0x05 => GameServerMessage::LargePosition(LargePositionMessage::parse(packet)?),
        0x06 => GameServerMessage::PlayerDeath(PlayerDeathMessage::parse(packet)?),
        0x07 => GameServerMessage::Chat(ChatMessage::parse(packet)?),
        0x08 => GameServerMessage::PrizePickup(PrizePickupMessage::parse(packet)?),
        0x09 => GameServerMessage::ScoreUpdate(ScoreUpdateMessage::parse(packet)?),
        0x0a => GameServerMessage::PasswordResponse(PasswordResponseMessage::parse(packet)?),
        0x0b => GameServerMessage::PowerballGoal(PowerballGoalMessage::parse(packet)?),
        0x0c => GameServerMessage::Voice(VoiceMessage::parse(packet)?),
        0x0d => GameServerMessage::PlayerFrequencyChange(PlayerFrequencyChangeMessage::parse(packet)?),
        0x0e => GameServerMessage::TurretLinkCreate(TurretLinkCreateMessage::parse(packet)?),
        0x0f => GameServerMessage::ArenaSettings(parse_arena_settings(packet)?),
        _ => return Err(DecodeError::InvalidEnum(MessageKind::Game(kind))),
    };
    Ok(message)
}

fn parse_game_below_20(packet: &[u8]) -> (r: Result<GameServerMessage, DecodeError>)
    requires
        packet@.len() >= 1,
        0x10 <= packet@[0] < 0x20,
    ensures
        match r {
            Ok(m) => game_packet_error(packet@) is None && m.decodes(packet@),
            Err(e) => game_packet_error(packet@) == Some(e),
        },
{
    let kind: u8 = packet[0];
    let message = match kind {
        0x10 => GameServerMessage::FileTransfer(FileTransferMessage::parse(packet)?),
        0x11 => GameServerMessage::Unknown11,
        0x12 => GameServerMessage::FlagPosition(FlagPositionMessage::parse(packet)?),
        0x13 => GameServerMessage::FlagClaim(FlagClaimMessage::parse(packet)?),
        0x14 => GameServerMessage::FlagVictory(FlagVictoryMessage::parse(packet)?),
        0x15 => GameServerMessage::TurretLinkDestroy(TurretLinkDestroyMessage::parse(packet)?),
        0x16 => GameServerMessage::FlagDrop(FlagDropMessage::parse(packet)?),
        0x17 => GameServerMessage::Unknown17,
        0x18 => GameServerMessage::SynchronizationRequest(SynchronizationRequestMessage::parse(packet)?),
        0x19 => GameServerMessage::RequestFile(RequestFileMessage::parse(packet)?),
        0x1a => GameServerMessage::ResetScore(ResetScoreMessage::parse(packet)?),
        0x1b => GameServerMessage::ShipReset,
        0x1c => GameServerMessage::SpectateData(SpectateDataMessage::parse(packet)?),
        0x1d => GameServerMessage::PlayerTeamAndShipChange(PlayerTeamAndShipChangeMessage::parse(packet)?),
        0x1e => GameServerMessage::SelfBannerChanged(SelfBannerChangedMessage::parse(packet)?),
        0x1f => GameServerMessage::PlayerBannerChanged(PlayerBannerChangedMessage::parse(packet)?),
        _ => return Err(DecodeError::InvalidEnum(MessageKind::Game(kind))),
    };
    Ok(message)
}

fn parse_game_below_30(packet: &[u8]) -> (r: Result<GameServerMessage, DecodeError>)
    requires
        packet@.len() >= 1,
        0x20 <= packet@[0] < 0x30,
    ensures
        match r {
            Ok(m) => game_packet_error(packet@) is None && m.decodes(packet@),
            Err(e) => game_packet_error(packet@) == Some(e),
        },
{
    let kind: u8 = packet[0];
    let message = match kind {
        0x20 => GameServerMessage::CollectedPrize(CollectedPrizeMessage::parse(packet)?),
        0x21 => GameServerMessage::BrickDrop(BrickDropMessage::parse(packet)?),
        0x22 => GameServerMessage::TurfFlagUpdate(TurfFlagUpdateMessage::parse(packet)?),
        0x23 => GameServerMessage::FlagReward(FlagRewardMessage::parse(packet)?),
        0x24 => GameServerMessage::SpeedGameOver(SpeedGameOverMessage::parse(packet)?),
        0x25 => GameServerMessage::ToggleUfo(ToggleUfoMessage::parse(packet)?),
        0x26 => GameServerMessage::Unknown26,
        0x27 => GameServerMessage::KeepAlive,
        0x28 => GameServerMessage::SmallPosition(SmallPositionMessage::parse(packet)?),
        0x29 => GameServerMessage::MapInformation(MapInformationMessage::parse(packet)?),
        0x2a => GameServerMessage::CompressedMap(CompressedMapMessage::parse(packet)?),
        0x2b => GameServerMessage::KothSetTimer(KothSetTimerMessage::parse(packet)?),
        0x2c => GameServerMessage::KothReset(KothResetMessage::parse(packet)?),
        0x2d => GameServerMessage::KothAddTime(KothAddTimeMessage::parse(packet)?),
        0x2e => GameServerMessage::PowerballPosition(PowerballPositionMessage::parse(packet)?),
        0x2f => GameServerMessage::ArenaDirectory(ArenaDirectoryMessage::parse(packet)?),
        _ => return Err(DecodeError::InvalidEnum(MessageKind::Game(kind))),
    };
    Ok(message)
}

fn parse_game_from_30(packet: &[u8]) -> (r: Result<GameServerMessage, DecodeError>)
    requires
        packet@.len() >= 1,
        0x30 <= packet@[0],
    ensures
        match r {
            Ok(m) => game_packet_error(packet@) is None && m.decodes(packet@),
            Err(e) => game_packet_error(packet@) == Some(e),
        },
{
    let kind: u8 = packet[0];
    let message = match kind {
        0x30 => GameServerMessage::ZoneBanner(ZoneBannerMessage::parse(packet)?),
        0x31 => GameServerMessage::PostLogin,
        0x32 => GameServerMessage::SetShipCoordinates(SetShipCoordinatesMessage::parse(packet)?),
        0x33 => GameServerMessage::CustomLoginFailure(CustomLoginFailureMessage::parse(packet)?),
        0x34 => GameServerMessage::ContinuumVersion(ContinuumVersionMessage::parse(packet)?),
        0x35 => GameServerMessage::LvzToggle,
        0x36 => GameServerMessage::LvzModify,
        0x37 => GameServerMessage::WatchDamageToggle,
        0x38 => GameServerMessage::WatchDamage,
        0x39 => GameServerMessage::BatchedSmallPosition,
        0x3a => GameServerMessage::BatchedLargePosition,
        0x3b => GameServerMessage::Redirect,
        0x3c => GameServerMessage::SelectBox,
        _ => return Err(DecodeError::InvalidEnum(MessageKind::Game(kind))),
    };
    Ok(message)
}

impl ServerMessage {
    /// The message is what packet `p` decodes to.
    pub open spec fn decodes(&self, p: Seq<u8>) -> bool {
        match self {
            ServerMessage::Core(m) => p.len() >= 2 && p[0] == 0 && m.decodes(p),
            ServerMessage::Game(m) => p.len() >= 1 && p[0] != 0 && m.decodes(p),
        }
    }

    /// Decodes one packet: a core packet when its first byte is zero, a
    /// game packet otherwise. An empty packet is too short for either.
    pub fn parse(packet: &[u8]) -> (r: Result<Option<ServerMessage>, DecodeError>)
        ensures
            match r {
                Ok(Some(m)) => packet_error(packet@) is None && m.decodes(packet@),
                Ok(None) => false,
                Err(e) => packet_error(packet@) == Some(e),
            },
    {
        if packet.len() == 0 {
            return Err(DecodeError::TooShort(MessageKind::Unknown));
        }
        if packet[0] == 0 {
            return ServerMessage::parse_core_packet(packet);
        }
        ServerMessage::parse_game_packet(packet)
    }

    /// Decodes a game packet by its type byte.
    pub fn parse_game_packet(packet: &[u8]) -> (r: Result<Option<ServerMessage>, DecodeError>)
        requires
            packet@.len() >= 1,
        ensures
            match r {
                Ok(Some(ServerMessage::Game(m))) => game_packet_error(packet@) is None && m.decodes(
                    packet@,
                ),
                Ok(_) => false,
                Err(e) => game_packet_error(packet@) == Some(e),
            },
    {
        let kind: u8 = packet[0];
        let message = if kind < 0x10 {
            parse_game_below_10(packet)?
        } else if kind < 0x20 {
            parse_game_below_20(packet)?
        } else if kind < 0x30 {
            parse_game_below_30(packet)?
        } else {
            parse_game_from_30(packet)?
        };
        Ok(Some(ServerMessage::Game(message)))
    }

    /// Decodes a core packet by its second byte.
    pub fn parse_core_packet(packet: &[u8]) -> (r: Result<Option<ServerMessage>, DecodeError>)
        ensures
            match r {
                Ok(Some(ServerMessage::Core(m))) => core_packet_error(packet@) is None && m.decodes(
                    packet@,
                ),
                Ok(_) => false,
                Err(e) => core_packet_error(packet@) == Some(e),
            },
    {
        if packet.len() < 2 {
            return Err(DecodeError::TooShort(MessageKind::Unknown));
        }
        let kind: u8 = packet[1];
        let message = match kind {
            0x02 => CoreServerMessage::EncryptionResponse(
                EncryptionResponseMessage::parse(packet)?,
            ),
            0x03 => CoreServerMessage::ReliableData(ReliableDataMessage::parse(packet)?),
            0x04 => CoreServerMessage::ReliableAck(ReliableAckMessage::parse(packet)?),
            0x06 => CoreServerMessage::SyncResponse(SyncResponseMessage::parse(packet)?),
            0x07 => CoreServerMessage::Disconnect,
            0x08 => CoreServerMessage::SmallChunkBody(SmallChunkBodyMessage::parse(packet)?),
            0x09 => CoreServerMessage::SmallChunkTail(SmallChunkTailMessage::parse(packet)?),
            0x0A => CoreServerMessage::HugeChunk(HugeChunkMessage::parse(packet)?),
            0x0B => CoreServerMessage::HugeChunkCancel,
            0x0C => CoreServerMessage::HugeChunkCancelAck,
            0x0E => CoreServerMessage::Cluster(ClusterMessage::parse(packet)?),
            _ => return Err(DecodeError::InvalidEnum(MessageKind::Core(kind))),
        };
        Ok(Some(ServerMessage::Core(message)))
    }
}

impl CoreServerMessage {
    /// The second byte that announces this message.
    pub open spec fn type_byte(&self) -> u8 {
        match self {
            CoreServerMessage::EncryptionResponse(_) => 0x02,
            CoreServerMessage::ReliableData(_) => 0x03,
            CoreServerMessage::ReliableAck(_) => 0x04,
            CoreServerMessage::SyncResponse(_) => 0x06,
            CoreServerMessage::Disconnect => 0x07,
            CoreServerMessage::SmallChunkBody(_) => 0x08,
            CoreServerMessage::SmallChunkTail(_) => 0x09,
            CoreServerMessage::HugeChunk(_) => 0x0A,
            CoreServerMessage::HugeChunkCancel => 0x0B,
            CoreServerMessage::HugeChunkCancelAck => 0x0C,
            CoreServerMessage::Cluster(_) => 0x0E,
        }
    }

    /// The message is what core packet `p` decodes to: its kind is the
    /// one that the second byte names, and every field holds what the
    /// packet says.
    pub open spec fn decodes(&self, p: Seq<u8>) -> bool {
        &&& p.len() >= 2
        &&& p[1] == self.type_byte()
        &&& match self {
            CoreServerMessage::EncryptionResponse(m) => m.decodes(p),
            CoreServerMessage::ReliableData(m) => m.decodes(p),
            CoreServerMessage::ReliableAck(m) => m.decodes(p),
            CoreServerMessage::SyncResponse(m) => m.decodes(p),
            CoreServerMessage::SmallChunkBody(m) => m.decodes(p),
            CoreServerMessage::SmallChunkTail(m) => m.decodes(p),
            CoreServerMessage::HugeChunk(m) => m.decodes(p),
            CoreServerMessage::Cluster(m) => m.decodes(p),
            _ => true,
        }
    }
}

/// Why a core packet is refused, if it is: it ends before its type byte,
/// the type byte names no message that a server sends, or the message
/// named is cut short or overlong.
pub open spec fn core_packet_error(p: Seq<u8>) -> Option<DecodeError> {
    if p.len() < 2 {
        Some(DecodeError::TooShort(MessageKind::Unknown))
    } else if p[1] == 0x02 {
        EncryptionResponseMessage::decode_error(p)
    } else if p[1] == 0x03 {
        ReliableDataMessage::decode_error(p)
    } else if p[1] == 0x04 {
        ReliableAckMessage::decode_error(p)
    } else if p[1] == 0x06 {
        SyncResponseMessage::decode_error(p)
    } else if p[1] == 0x08 {
        SmallChunkBodyMessage::decode_error(p)
    } else if p[1] == 0x09 {
        SmallChunkTailMessage::decode_error(p)
    } else if p[1] == 0x0A {
        HugeChunkMessage::decode_error(p)
    } else if p[1] == 0x0E {
        ClusterMessage::decode_error(p)
    } else if p[1] == 0x07 || p[1] == 0x0B || p[1] == 0x0C {
        None
    } else {
        Some(DecodeError::InvalidEnum(MessageKind::Core(p[1])))
    }
}

/// Why a packet is refused, if it is.
pub open spec fn packet_error(p: Seq<u8>) -> Option<DecodeError> {
    if p.len() == 0 {
        Some(DecodeError::TooShort(MessageKind::Unknown))
    } else if p[0] == 0 {
        core_packet_error(p)
    } else {
        game_packet_error(p)
    }
}

/// The messages that are nothing but their header decode from their own
/// wire form.
pub proof fn lemma_header_only_roundtrip()
    ensures
        packet_error(crate::net::packet::bi::DisconnectMessage {  }.wire()) is None,
        CoreServerMessage::Disconnect.decodes(
            crate::net::packet::bi::DisconnectMessage {  }.wire(),
        ),
        packet_error(crate::net::packet::bi::HugeChunkCancelMessage {  }.wire()) is None,
        CoreServerMessage::HugeChunkCancel.decodes(
            crate::net::packet::bi::HugeChunkCancelMessage {  }.wire(),
        ),
        packet_error(crate::net::packet::bi::HugeChunkCancelAckMessage {  }.wire()) is None,
        CoreServerMessage::HugeChunkCancelAck.decodes(
            crate::net::packet::bi::HugeChunkCancelAckMessage {  }.wire(),
        ),
{
}

/// The wire form of a core message that carries a payload is accepted as
/// the kind of message it was made from.
pub proof fn lemma_core_wire_is_accepted(
    reliable: ReliableDataMessage,
    ack: ReliableAckMessage,
    huge: HugeChunkMessage,
    cluster: ClusterMessage,
)
    requires
        reliable.fits(),
        reliable.data.size >= 1,
        huge.fits(),
        cluster.fits(),
    ensures
        packet_error(reliable.wire()) == ReliableDataMessage::decode_error(reliable.wire()),
        packet_error(reliable.wire()) is None,
        packet_error(ack.wire()) is None,
        packet_error(huge.wire()) is None,
        packet_error(cluster.wire()) is None,
{
}

} // verus!

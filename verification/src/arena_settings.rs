//! The arena settings record: 1428 bytes that carry some two hundred
//! scalars, eight ship records of 144 bytes, four spawn records and the
//! prize weights. The record's bytes are kept beside the decoded fields.

use crate::codec::{le_i16, le_i32, le_u16, le_u32, read_i16, read_i32, read_u16, read_u32, u16_bytes, u32_bytes};
use vstd::prelude::*;

verus! {

/// Length of the arena settings record, its type byte included.
pub const ARENA_SETTINGS_SIZE: usize = 1428;

/// Length of one ship record.
pub const SHIP_SETTINGS_SIZE: usize = 144;

#[derive(Debug)]
pub struct ShipSettings {
    /// How long Super lasts on the ship (in ticks)
    pub super_time: u32,
    /// How long Shield lasts on the ship (in ticks)
    pub shield_time: u32,
    /// How strong of an effect the wormhole has on this ship (0 = none)
    pub gravity: i16,
    /// Ship are allowed to move faster than their maximum speed while
    /// effected by a wormhole.This determines how much faster they can
    /// go (0 = no extra speed)
    pub gravity_top_speed: i16,
    /// Amount of energy it takes a ship to fire a single L1 bullet
    pub bullet_fire_energy: u16,
    /// Amount of energy it takes a ship to fire multifire L1 bullets
    pub multi_fire_energy: u16,
    /// Amount of energy it takes a ship to fire a single bomb
    pub bomb_fire_energy: u16,
    /// Extra amount of energy it takes a ship to fire an upgraded bomb.
    /// i.e. L2 = BombFireEnergy + BombFireEnergyUpgrade
    pub bomb_fire_energy_upgrade: u16,
    /// Amount of energy it takes a ship to place a single L1 mine
    pub mine_fire_energy: u16,
    /// Extra amount of energy it takes to place an upgraded landmine.
    /// i.e. L2 = LandmineFireEnergy + LandmineFireEnergyUpgrade
    pub mine_fire_energy_upgrade: u16,
    /// How fast bullets travel (Pixels / second / 10)
    pub bullet_speed: i16,
    /// How fast bombs travel
    pub bomb_speed: i16,
    /// If ship can see bombs on radar(0 = Disabled, 1 = All, 2 = L2 and up,
    /// 3 = L3 and up, 4 = L4 bombs only)
    pub see_bomb_level: u16,
    /// If firing bullets, bombs, or thors is disabled after using afterburners
    /// (1 = enabled)
    pub disable_fast_shooting: bool,
    /// The ship's radius from center to outside, in pixels.
    pub radius: u16,
    /// Angle spread between multi-fire bullets and standard forward
    /// firing bullets(111 = 1 degree, 1000 = 1 ship - rotation - point)
    pub multi_fire_angle: u16,
    /// Amount of energy required to have 'Cloak' activated (thousanths per tick)
    pub cloak_energy: u16,
    /// Amount of energy required to have 'Stealth' activated (thousanths per tick)
    pub stealth_energy: u16,
    /// Amount of energy required to have 'Anti-Warp' activated (thousanths per
    /// tick)
    pub antiwarp_energy: u16,
    /// Amount of energy required to have 'X-Radar' activated (thousanths per tick)
    pub xradar_energy: u16,
    /// Maximum rotation rate of the ship (0 = can't rotate, 400 = full rotation in
    /// 1 second)
    pub maximum_rotation: u16,
    /// Maximum thrust of ship (0 = none)
    pub maximum_thrust: u16,
    /// Maximum speed of ship (0 = can't move)
    pub maximum_speed: u16,
    /// Maximum recharge rate, or how quickly this ship recharges its energy
    pub maximum_recharge: u16,
    /// Maximum amount of energy that the ship can have
    pub maximum_energy: u16,
    /// Initial rotation rate of the ship (0 = can't rotate, 400 = full rotation in
    /// 1 second)
    pub initial_rotation: u16,
    /// Initial thrust of ship (0 = none)
    pub initial_thrust: u16,
    /// Initial speed of ship (0 = can't move)
    pub initial_speed: u16,
    /// Initial recharge rate, or how quickly this ship recharges its energy
    pub initial_recharge: u16,
    /// Initial amount of energy that the ship can have
    pub initial_energy: u16,
    /// Amount added per 'Rotation' Prize
    pub upgrade_rotation: u16,
    /// Amount added per 'Thruster' Prize
    pub upgrade_thrust: u16,
    /// Amount added per 'Speed' Prize
    pub upgrade_speed: u16,
    /// Amount added per 'Recharge Rate' Prize
    pub upgrade_recharge: u16,
    /// Amount added per 'Energy Upgrade' Prize
    pub upgrade_energy: u16,
    /// Amount of energy required to have 'Afterburners' activated
    pub afterburner_energy: u16,
    /// Amount of back-thrust you receive when firing a bomb
    pub bomb_thrust: u16,
    /// How fast the burst shrapnel is for this ship
    pub burst_speed: u16,
    /// Amount the ship's thrust is decreased with a turret riding
    pub turret_thrust_penalty: i16,
    /// Amount the ship's speed is decreased with a turret riding
    pub turret_speed_penalty: i16,
    /// Delay that ship waits after a bullet is fired until another
    /// weapon may be fired(in ticks)
    pub bullet_fire_delay: u16,
    /// Delay that ship waits after a multifire bullet is fired until
    /// another weapon may be fired(in ticks)
    pub multi_fire_delay: u16,
    /// delay that ship waits after a bomb is fired until another weapon
    /// may be fired(in ticks)
    pub bomb_fire_delay: u16,
    /// Delay that ship waits after a mine is fired until another weapon
    /// may be fired(in ticks)
    pub mine_fire_delay: u16,
    /// How long a Rocket lasts (in ticks)
    pub rocket_time: u16,
    /// Number of 'Greens' given to ships when they start
    pub initial_bounty: u16,
    /// How likely a the ship is to take damamage (ie. lose a prize)
    /// (0 = special - case-never, 1 = extremely likely, 5000 = almost never)
    pub damage_factor: u16,
    /// Maximum bounty that ships receive Team Prizes
    pub prize_share_limit: u16,
    /// Bounty required by ships to attach as a turret
    pub attach_bounty: u16,
    /// Time player has to carry soccer ball (in ticks)
    pub powerball_throw_timer: u16,
    /// Amount the friction on the soccer ball (how quickly it slows down
    /// --higher numbers mean faster slowdown)
    pub powerball_friction: u16,
    /// How close the player must be in order to pick up ball (in pixels)
    pub powerball_proximity: u16,
    /// Initial speed given to the ball when fired by the carrier
    pub powerball_speed: u16,
    /// Number of turrets allowed on a ship
    pub turret_limit: u8,
    /// Number of bullets released when a 'Burst' is activated
    pub burst_shrapnel: u8,
    /// Maximum number of mines allowed in ships
    pub max_mines: u8,
    /// Maximum number of Repels allowed in ships
    pub max_repel: u8,
    /// Maximum number of Bursts allowed in ships
    pub max_burst: u8,
    /// Maximum number of Decoys allowed in ships
    pub max_decoy: u8,
    /// Maximum number of Thor's Hammers allowed in ships
    pub max_thor: u8,
    /// Maximum number of Bricks allowed in ships
    pub max_brick: u8,
    /// Maximum number of Rockets allowed in ships
    pub max_rocket: u8,
    /// Maximum number of Portals allowed in ships
    pub max_portal: u8,
    /// Initial number of Repels given to ships when they start
    pub initial_repel: u8,
    /// Initial number of Bursts given to ships when they start
    pub initial_burst: u8,
    /// Initial number of Bricks given to ships when they start
    pub initial_brick: u8,
    /// Initial number of Rockets given to ships when they start
    pub initial_rocket: u8,
    /// Initial number of Thor's Hammers given to ships when they start
    pub initial_thor: u8,
    /// Initial number of Decoys given to ships when they start
    pub initial_decoy: u8,
    /// Initial number of Portals given to ships when they start
    pub initial_portal: u8,
    /// Number of times a ship's bombs bounce before they explode on impact
    pub bomb_bounce_count: u8,
    pub max_shrapnel: u8,
    pub shrapnel_rate: u8,
    pub cloak_status: u8,
    pub stealth_status: u8,
    pub xradar_status: u8,
    pub antiwarp_status: u8,
    pub initial_guns: u8,
    pub max_guns: u8,
    pub initial_bombs: u8,
    pub max_bombs: u8,
    pub double_barrel: bool,
    pub emp_bomb: bool,
    pub see_mines: bool,
}

/// Where a team starts: one of the four spawn records, teams 0 to 3.
#[derive(Debug, PartialEq, Eq, Structural)]
pub struct SpawnSettings {
    /// X Coordinate for the center point where this team will start
    pub x: i16,
    /// Y Coordinate for the center point where this team will start
    pub y: i16,
    /// How large of a circle from the center point this team can start
    pub radius: u16,
}

/// How likely each prize is to appear.
#[derive(Debug)]
pub struct PrizeWeightSettings {
    pub quick_charge: u8,
    pub energy: u8,
    pub rotation: u8,
    pub stealth: u8,
    pub cloak: u8,
    pub xradar: u8,
    pub warp: u8,
    pub gun: u8,
    pub bomb: u8,
    pub bouncing_bullets: u8,
    pub thruster: u8,
    pub top_speed: u8,
    pub recharge: u8,
    pub engine_shutdown: u8,
    pub multi_fire: u8,
    pub proximity: u8,
    pub all_weapons: u8,
    pub shields: u8,
    pub shrapnel: u8,
    pub anti_warp: u8,
    pub repel: u8,
    pub burst: u8,
    pub decoy: u8,
    pub thor: u8,
    pub multi_prize: u8,
    pub brick: u8,
    pub rocket: u8,
    pub portal: u8,
}

#[derive(Debug)]
pub struct ArenaSettings {
    /// Whether to use exact bullet damage
    pub exact_damage: bool,
    /// Whether to show dropped flags to spectators
    pub no_spec_flags: bool,
    /// Whether spectators are disallowed from having X radar
    pub no_spec_xradar: bool,
    pub slow_framerate: u8,
    /// Whether to disable Continuum's screenshot feature
    pub disable_screenshot: bool,
    pub max_timer_drift: u8,
    /// Whether to disable ball-passing through walls
    pub disable_ball_through_walls: bool,
    /// Whether to disable ball killing in safe zones
    pub disable_ball_killing: bool,
    pub ship_settings: [ShipSettings; 8],
    /// Maximum amount of damage that a L1 bullet will cause
    pub bullet_damage_level: i32,
    /// Amount of damage a bomb causes at its center point (for all bomb levels)
    pub bomb_damage_level: i32,
    /// How long bullets live before disappearing (in ticks)
    pub bullet_alive_time: i32,
    /// Time bomb is alive (in ticks)
    pub bomb_alive_time: i32,
    /// Time a decoy is alive (in ticks)
    pub decoy_alive_time: i32,
    /// Amount of time that can be spent in the safe zone (in ticks)
    pub safety_limit: i32,
    /// Amount of random frequency shift applied to sounds in the game
    pub frequency_shift: i32,
    /// One more than the highest frequency allowed
    pub max_frequency: i32,
    /// Speed at which players are repelled
    pub repel_speed: i32,
    /// Time that mines are active (in ticks)
    pub mine_alive_time: i32,
    /// Maximum amount of damage caused by a single burst bullet
    pub burst_damage_level: i32,
    /// Amount of extra damage each bullet level will cause
    pub bullet_damage_upgrade: i32,
    /// Time before flag is dropped by carrier (0=never)
    pub flag_drop_delay: i32,
    /// Time a new player must wait before they are allowed to see flags
    pub enter_game_flagging_delay: i32,
    /// Thrust value given while a rocket is active
    pub rocket_thrust: i32,
    /// Speed value given while a rocket is active
    pub rocket_speed: i32,
    /// Amount of damage shrapnel causes in its first 1/4 second of life
    pub inactive_shrap_damage: i32,
    /// How often the wormhole switches its destination
    pub wormhole_switch_time: i32,
    /// Amount of time a ship is shutdown after application is reactivated
    pub activate_app_shutdown_time: i32,
    /// Speed that shrapnel travels
    pub shrapnel_speed: i32,
    pub spawn_settings: [SpawnSettings; 4],
    /// Percentage of the ping time that is spent on the C2S portion of the
    /// ping(used in more accurately syncronizing clocks)
    pub send_route_percent: i16,
    /// How long after the proximity sensor is triggered before bomb explodes
    pub bomb_explode_delay: i16,
    /// Amount of time between position packets sent by client
    pub send_position_delay: i16,
    /// Blast radius in pixels for an L1 bomb (L2 bombs double this, L3 bombs
    /// triple this)
    pub bomb_explode_pixels: i16,
    /// How long the prize exists that appears after killing somebody
    pub death_prize_time: i16,
    /// How long the screen jitters from a bomb hit (in ticks)
    pub jitter_time: i16,
    /// How long after a player dies before he can re-enter the game (in ticks)
    pub enter_delay: i16,
    /// Time the player is affected by an 'Engine Shutdown' Prize (in ticks)
    pub engine_shutdown_time: i16,
    /// Radius of proximity trigger in tiles (each bomb level adds 1 to this
    /// amount)
    pub proximity_distance: i16,
    /// Number of points added to players bounty each time he kills an opponent
    pub bounty_increase_for_kill: i16,
    /// How bouncy the walls are (16 = no speed loss)
    pub bounce_factor: i16,
    /// A number representing how much the map is zoomed out for radar.
    /// (48 = whole map on radar, 49 + = effectively disable radar)
    pub map_zoom_factor: i16,
    pub max_bonus: i16,
    pub max_penalty: i16,
    pub reward_base: i16,
    /// Time players are affected by the repel (in ticks)
    pub repel_time: i16,
    /// Number of pixels from the player that are affected by a repel
    pub repel_distance: i16,
    /// Amount of time between ticker help messages
    pub ticker_delay: i16,
    /// Whether the flaggers appear on radar in red
    pub flagger_on_radar: i16,
    /// Number of times more points are given to a flagger (1 = double points, 2 =
    /// triple points)
    pub flagger_kill_multiplier: i16,
    /// Number of prizes hidden is based on number of players in game.
    /// This number adjusts the formula, higher numbers mean more prizes.
    /// (Note: 10000 is max, 10 greens per person)
    pub prize_factor: i16,
    /// How often prizes are regenerated (in ticks)
    pub prize_delay: i16,
    /// Distance from center of arena that prizes/flags/soccer-balls will spawn
    pub minimum_virtual: i16,
    /// Amount of additional distance added to MinimumVirtual for each player that
    /// is in the game
    pub upgrade_virtual: i16,
    /// Maximum amount of time that a hidden prize will remain on screen. (actual
    /// time is random)
    pub prize_max_exist: i16,
    /// Minimum amount of time that a hidden prize will remain on screen. (actual
    /// time is random)
    pub prize_min_exist: i16,
    ///  Odds of getting a negative prize.  (1 = every prize, 32000 = extremely
    ///  rare)
    pub prize_negative_factor: i16,
    /// How often doors attempt to switch their state
    pub door_delay: i16,
    /// Distance Anti-Warp affects other players (in pixels) (note: enemy must also
    /// be on radar)
    pub antiwarp_pixels: i16,
    /// Door mode (-2=all doors completely random, -1=weighted random
    /// (some doors open more often than others), 0 - 255 = fixed doors (1
    /// bit of byte for each door specifying whether it is open or not)
    pub door_mode: i16,
    /// Amount of time that a user can get no data from server before flags are
    /// hidden from view for 10 seconds
    pub flag_blank_delay: i16,
    /// Amount of time that a user can get no data from server before flags he is
    /// carrying are dropped
    pub no_data_flag_drop_delay: i16,
    /// Number of random greens given with a MultiPrize
    pub multi_prize_count: i16,
    /// How long bricks last (in ticks)
    pub brick_time: i16,
    /// When ships are randomly placed in the arena, this parameter will
    /// limit how far from the center of the arena they can be placed
    /// (1024 = anywhere)
    pub warp_radius_limit: i16,
    /// Maximum time recharge is stopped on players hit with an EMP bomb
    pub ebomb_shutdown_time: i16,
    /// Percentage of normal damage applied to an EMP bomb (in 0.1%)
    pub ebomb_damage_percent: i16,
    /// Size of area between blinded radar zones (in pixels)
    pub radar_neutral_size: i16,
    /// How long a portal is active
    pub warp_point_delay: i16,
    /// Amount of energy that constitutes a near-death experience (ships
    /// bounty will be decreased by 1 when this occurs -- used for dueling zone)
    pub near_death_level: i16,
    /// Percentage of normal damage applied to a bouncing bomb (in 0.1%)
    pub bouncing_bomb_damage_percent: i16,
    /// Percentage of normal damage applied to shrapnel (relative to bullets of
    /// same level) (in 0.1%)
    pub shrapnel_damage_percent: i16,
    /// Amount of latency S2C that constitutes a slow packet
    pub client_slow_packet_time: i16,
    /// Minimum kill reward that a player must get in order to have his flag drop
    /// timer reset
    pub flag_drop_reset_reward: i16,
    /// Percentage of normal weapon firing cost for flaggers (in 0.1%)
    pub flagger_fire_cost_percent: i16,
    /// Percentage of normal damage received by flaggers (in 0.1%)
    pub flagger_damage_percent: i16,
    /// Delay given to flaggers for firing bombs (zero is ships normal firing rate)
    /// (do not set this number less than 20)
    pub flagger_bomb_fire_delay: i16,
    /// How long after the ball is fired before anybody can pick it up (in ticks)
    pub powerball_pass_delay: i16,
    /// Amount of time a player can receive no data from server and still pick up
    /// the soccer ball
    pub powerball_blank_delay: i16,
    /// Amount of time a user can receive no data from server before connection is
    /// terminated
    pub s2c_no_data_kickout_delay: i16,
    /// Amount of thrust adjustment player carrying flag gets (negative numbers
    /// mean less thrust)
    pub flagger_thrust_adjustment: i16,
    /// Amount of speed adjustment player carrying flag gets (negative numbers mean
    /// slower)
    pub flagger_speed_adjustment: i16,
    /// Number of packets to sample S2C before checking for kickout
    pub client_slow_packet_sample_size: i16,
    /// Whether shrapnel spreads in circular or random patterns
    pub shrapnel_random: bool,
    /// Whether the ball bounces off walls
    pub powerball_bounce: bool,
    /// Whether the ball carrier can fire his bombs
    pub powerball_bomb_allowed: bool,
    /// Whether the ball carrier can fire his guns
    pub powerball_gun_allowed: bool,
    /// Goal configuration ($GOAL_ALL, $GOAL_LEFTRIGHT, $GOAL_TOPBOTTOM,
    /// $GOAL_CORNERS_3_1, $GOAL_CORNERS_1_3, $GOAL_SIDES_3_1,
    /// $GOAL_SIDES_1_3)
    pub powerball_mode: u8,
    /// Maximum number of people on a public team
    pub max_per_team: u8,
    /// Maximum number of people on a private team
    pub max_per_private_team: u8,
    /// Maximum number of mines allowed to be placed by an entire team
    pub team_max_mines: u8,
    /// Whether a wormhole affects bombs
    pub gravity_bombs: bool,
    /// Whether proximity bombs have a firing safety.  If enemy ship is
    /// within proximity radius, will it allow you to fire
    pub bomb_safety: bool,
    /// Whether chat packets are sent reliably (C2S)
    pub message_reliable: bool,
    /// Whether prize packets are sent reliably (C2S)
    pub take_prize_reliable: bool,
    /// Whether players can send audio messages
    pub allow_audio_messages: bool,
    /// Number of prizes that are regenerated every PrizeDelay
    pub prize_hide_count: u8,
    /// Whether regular players receive sysop data about a ship
    pub extra_position_data: bool,
    /// Whether to check for slow frames on the client (possible cheat
    /// technique) (flawed on some machines, do not use)
    pub slow_frame_check: bool,
    /// Whether the flags can be picked up and carried
    /// (0=no, 1=yes, 2 = yes - one at a time, 3 = yes - two at a time, 4 = three,
    /// etc..)
    pub carry_flags: u8,
    /// Whether saved ships are allowed (do not allow saved ship in zones where sub
    /// - arenas may have differing parameters)
    pub allow_saved_ships: bool,
    /// Radar mode (0=normal, 1=half/half, 2=quarters, 3=half/half-see team mates,
    /// 4 = quarters - see team mates)
    pub radar_mode: u8,
    /// Whether the zone plays victory music or not
    pub victory_music: bool,
    /// Whether the flaggers get a gun upgrade
    pub flagger_gun_upgrade: bool,
    /// Whether the flaggers get a bomb upgrade
    pub flagger_bomb_upgrade: bool,
    /// If player with soccer ball should use the Flag:Flagger* ship adjustments or
    /// not
    pub powerball_flag_upgrades: bool,
    /// Whether the balls location is displayed at all times or not
    pub powerball_global_position: bool,
    /// How many ticks to activate a fake antiwarp after attaching, portaling, or
    /// warping
    pub antiwarp_settle_delay: u8,
    pub prize_weights: PrizeWeightSettings,
    /// The 1428 bytes the record was decoded from, unchanged.
    pub raw_bytes: Vec<u8>,
}

/// The bit-packed lane at bytes 28 and 29 of a ship record: bomb sight level (2 bits), fast-shooting lock (1 bit), radius (8 bits).
#[derive(Debug, Copy, Clone, PartialEq, Eq, Structural)]
pub struct PackedShipBits28 {
    pub see_bomb_level: u16,
    pub disable_fast_shooting: bool,
    pub radius: u16,
}

impl PackedShipBits28 {
    /// The fields held by the bits of `packed`.
    pub open spec fn spec_decode(packed: u16) -> PackedShipBits28 {
        PackedShipBits28 {
            see_bomb_level: ((packed >> 0) & 0x3) as u16,
            disable_fast_shooting: ((packed >> 2) & 1) != 0,
            radius: ((packed >> 3) & 0xff) as u16,
        }
    }

    /// The bits that hold these fields; every bit outside the fields is zero.
    pub open spec fn spec_encode(&self) -> u16 {
        (((self.see_bomb_level as u16) & 0x3) << 0)
            | ((if self.disable_fast_shooting { 1u16 } else { 0u16 }) << 2)
            | (((self.radius as u16) & 0xff) << 3)
    }

    #[verifier::when_used_as_spec(spec_decode)]
    pub fn decode(packed: u16) -> (r: PackedShipBits28)
        ensures
            r == Self::spec_decode(packed),
    {
        PackedShipBits28 {
            see_bomb_level: ((packed >> 0) & 0x3) as u16,
            disable_fast_shooting: ((packed >> 2) & 1) != 0,
            radius: ((packed >> 3) & 0xff) as u16,
        }
    }

    #[verifier::when_used_as_spec(spec_encode)]
    pub fn encode(&self) -> (r: u16)
        ensures
            r == self.spec_encode(),
    {
        let disable_fast_shooting: u16 = if self.disable_fast_shooting {
            1
        } else {
            0
        };
        (((self.see_bomb_level as u16) & 0x3) << 0)
            | (disable_fast_shooting << 2)
            | (((self.radius as u16) & 0xff) << 3)
    }

    /// Encoding what was decoded gives the packed bits back with the
    /// bits outside the fields cleared.
    pub proof fn lemma_encode_decode(packed: u16)
        ensures
            Self::spec_decode(packed).spec_encode() == packed & 0x7ff,
            packed <= 0x7ff ==> Self::spec_decode(packed).spec_encode() == packed,
    {
        assert((((((((packed >> 0) & 0x3) as u16) as u16) & 0x3) << 0)
            | ((if ((packed >> 2) & 1) != 0 { 1u16 } else { 0u16 }) << 2)
            | ((((((packed >> 3) & 0xff) as u16) as u16) & 0xff) << 3)) == packed & 0x7ff) by (bit_vector);
        assert(packed <= 0x7ff ==> packed & 0x7ff == packed) by (bit_vector);
    }
}

/// The bit-packed lane at bytes 124 to 127 of a ship record: thirteen small fields in 29 bits.
#[derive(Debug, Copy, Clone, PartialEq, Eq, Structural)]
pub struct PackedShipBits124 {
    pub max_shrapnel: u8,
    pub shrapnel_rate: u8,
    pub cloak_status: u8,
    pub stealth_status: u8,
    pub xradar_status: u8,
    pub antiwarp_status: u8,
    pub initial_guns: u8,
    pub max_guns: u8,
    pub initial_bombs: u8,
    pub max_bombs: u8,
    pub double_barrel: bool,
    pub emp_bomb: bool,
    pub see_mines: bool,
}

impl PackedShipBits124 {
    /// The fields held by the bits of `packed`.
    pub open spec fn spec_decode(packed: u32) -> PackedShipBits124 {
        PackedShipBits124 {
            max_shrapnel: ((packed >> 0) & 0x1f) as u8,
            shrapnel_rate: ((packed >> 5) & 0x1f) as u8,
            cloak_status: ((packed >> 10) & 0x3) as u8,
            stealth_status: ((packed >> 12) & 0x3) as u8,
            xradar_status: ((packed >> 14) & 0x3) as u8,
            antiwarp_status: ((packed >> 16) & 0x3) as u8,
            initial_guns: ((packed >> 18) & 0x3) as u8,
            max_guns: ((packed >> 20) & 0x3) as u8,
            initial_bombs: ((packed >> 22) & 0x3) as u8,
            max_bombs: ((packed >> 24) & 0x3) as u8,
            double_barrel: ((packed >> 26) & 1) != 0,
            emp_bomb: ((packed >> 27) & 1) != 0,
            see_mines: ((packed >> 28) & 1) != 0,
        }
    }

    /// The bits that hold these fields; every bit outside the fields is zero.
    pub open spec fn spec_encode(&self) -> u32 {
        (((self.max_shrapnel as u32) & 0x1f) << 0)
            | (((self.shrapnel_rate as u32) & 0x1f) << 5)
            | (((self.cloak_status as u32) & 0x3) << 10)
            | (((self.stealth_status as u32) & 0x3) << 12)
            | (((self.xradar_status as u32) & 0x3) << 14)
            | (((self.antiwarp_status as u32) & 0x3) << 16)
            | (((self.initial_guns as u32) & 0x3) << 18)
            | (((self.max_guns as u32) & 0x3) << 20)
            | (((self.initial_bombs as u32) & 0x3) << 22)
            | (((self.max_bombs as u32) & 0x3) << 24)
            | ((if self.double_barrel { 1u32 } else { 0u32 }) << 26)
            | ((if self.emp_bomb { 1u32 } else { 0u32 }) << 27)
            | ((if self.see_mines { 1u32 } else { 0u32 }) << 28)
    }

    #[verifier::when_used_as_spec(spec_decode)]
    pub fn decode(packed: u32) -> (r: PackedShipBits124)
        ensures
            r == Self::spec_decode(packed),
    {
        PackedShipBits124 {
            max_shrapnel: ((packed >> 0) & 0x1f) as u8,
            shrapnel_rate: ((packed >> 5) & 0x1f) as u8,
            cloak_status: ((packed >> 10) & 0x3) as u8,
            stealth_status: ((packed >> 12) & 0x3) as u8,
            xradar_status: ((packed >> 14) & 0x3) as u8,
            antiwarp_status: ((packed >> 16) & 0x3) as u8,
            initial_guns: ((packed >> 18) & 0x3) as u8,
            max_guns: ((packed >> 20) & 0x3) as u8,
            initial_bombs: ((packed >> 22) & 0x3) as u8,
            max_bombs: ((packed >> 24) & 0x3) as u8,
            double_barrel: ((packed >> 26) & 1) != 0,
            emp_bomb: ((packed >> 27) & 1) != 0,
            see_mines: ((packed >> 28) & 1) != 0,
        }
    }

    #[verifier::when_used_as_spec(spec_encode)]
    pub fn encode(&self) -> (r: u32)
        ensures
            r == self.spec_encode(),
    {
        let double_barrel: u32 = if self.double_barrel {
            1
        } else {
            0
        };
        let emp_bomb: u32 = if self.emp_bomb {
            1
        } else {
            0
        };
        let see_mines: u32 = if self.see_mines {
            1
        } else {
            0
        };
        (((self.max_shrapnel as u32) & 0x1f) << 0)
            | (((self.shrapnel_rate as u32) & 0x1f) << 5)
            | (((self.cloak_status as u32) & 0x3) << 10)
            | (((self.stealth_status as u32) & 0x3) << 12)
            | (((self.xradar_status as u32) & 0x3) << 14)
            | (((self.antiwarp_status as u32) & 0x3) << 16)
            | (((self.initial_guns as u32) & 0x3) << 18)
            | (((self.max_guns as u32) & 0x3) << 20)
            | (((self.initial_bombs as u32) & 0x3) << 22)
            | (((self.max_bombs as u32) & 0x3) << 24)
            | (double_barrel << 26)
            | (emp_bomb << 27)
            | (see_mines << 28)
    }

    /// Encoding what was decoded gives the packed bits back with the
    /// bits outside the fields cleared.
    pub proof fn lemma_encode_decode(packed: u32)
        ensures
            Self::spec_decode(packed).spec_encode() == packed & 0x1fffffff,
            packed <= 0x1fffffff ==> Self::spec_decode(packed).spec_encode() == packed,
    {
        assert((((((((packed >> 0) & 0x1f) as u8) as u32) & 0x1f) << 0)
            | ((((((packed >> 5) & 0x1f) as u8) as u32) & 0x1f) << 5)
            | ((((((packed >> 10) & 0x3) as u8) as u32) & 0x3) << 10)
            | ((((((packed >> 12) & 0x3) as u8) as u32) & 0x3) << 12)
            | ((((((packed >> 14) & 0x3) as u8) as u32) & 0x3) << 14)
            | ((((((packed >> 16) & 0x3) as u8) as u32) & 0x3) << 16)
            | ((((((packed >> 18) & 0x3) as u8) as u32) & 0x3) << 18)
            | ((((((packed >> 20) & 0x3) as u8) as u32) & 0x3) << 20)
            | ((((((packed >> 22) & 0x3) as u8) as u32) & 0x3) << 22)
            | ((((((packed >> 24) & 0x3) as u8) as u32) & 0x3) << 24)
            | ((if ((packed >> 26) & 1) != 0 { 1u32 } else { 0u32 }) << 26)
            | ((if ((packed >> 27) & 1) != 0 { 1u32 } else { 0u32 }) << 27)
            | ((if ((packed >> 28) & 1) != 0 { 1u32 } else { 0u32 }) << 28)) == packed & 0x1fffffff) by (bit_vector);
        assert(packed <= 0x1fffffff ==> packed & 0x1fffffff == packed) by (bit_vector);
    }
}

impl SpawnSettings {
    /// The spawn record held by 32 packed bits: x (10 bits), y (10 bits),
    /// radius (9 bits).
    pub open spec fn spec_decode(bits: u32) -> SpawnSettings {
        SpawnSettings {
            x: (bits & 0x3FF) as i16,
            y: ((bits >> 10) & 0x3FF) as i16,
            radius: ((bits >> 20) & 0x1FF) as u16,
        }
    }

    #[verifier::when_used_as_spec(spec_decode)]
    pub fn decode(bits: u32) -> (r: SpawnSettings)
        ensures
            r == Self::spec_decode(bits),
    {
        SpawnSettings {
            x: (bits & 0x3FF) as i16,
            y: ((bits >> 10) & 0x3FF) as i16,
            radius: ((bits >> 20) & 0x1FF) as u16,
        }
    }

    /// Decodes a spawn record; only a slice of exactly 4 bytes is one.
    pub fn parse(data: &[u8]) -> (r: Option<SpawnSettings>)
        ensures
            r is Some <==> data@.len() == 4,
            r is Some ==> r.unwrap() == Self::spec_decode(le_u32(data@, 0)),
    {
        if data.len() != 4 {
            return None;
        }
        Some(SpawnSettings::decode(read_u32(data, 0)))
    }
}

impl PrizeWeightSettings {
    /// Every weight is the byte at its place in the 28-byte table.
    pub open spec fn decodes(&self, data: Seq<u8>) -> bool {
        &&& self.quick_charge == data[0]
        &&& self.energy == data[1]
        &&& self.rotation == data[2]
        &&& self.stealth == data[3]
        &&& self.cloak == data[4]
        &&& self.xradar == data[5]
        &&& self.warp == data[6]
        &&& self.gun == data[7]
        &&& self.bomb == data[8]
        &&& self.bouncing_bullets == data[9]
        &&& self.thruster == data[10]
        &&& self.top_speed == data[11]
        &&& self.recharge == data[12]
        &&& self.engine_shutdown == data[13]
        &&& self.multi_fire == data[14]
        &&& self.proximity == data[15]
        &&& self.all_weapons == data[16]
        &&& self.shields == data[17]
        &&& self.shrapnel == data[18]
        &&& self.anti_warp == data[19]
        &&& self.repel == data[20]
        &&& self.burst == data[21]
        &&& self.decoy == data[22]
        &&& self.thor == data[23]
        &&& self.multi_prize == data[24]
        &&& self.brick == data[25]
        &&& self.rocket == data[26]
        &&& self.portal == data[27]
    }

    /// Decodes the prize weights; only a slice of exactly 28 bytes is a
    /// table.
    pub fn parse(data: &[u8]) -> (r: Option<PrizeWeightSettings>)
        ensures
            r is Some <==> data@.len() == 28,
            r is Some ==> r.unwrap().decodes(data@),
    {
        if data.len() != 28 {
            return None;
        }
        Some(
            PrizeWeightSettings {
                quick_charge: data[0],
                energy: data[1],
                rotation: data[2],
                stealth: data[3],
                cloak: data[4],
                xradar: data[5],
                warp: data[6],
                gun: data[7],
                bomb: data[8],
                bouncing_bullets: data[9],
                thruster: data[10],
                top_speed: data[11],
                recharge: data[12],
                engine_shutdown: data[13],
                multi_fire: data[14],
                proximity: data[15],
                all_weapons: data[16],
                shields: data[17],
                shrapnel: data[18],
                anti_warp: data[19],
                repel: data[20],
                burst: data[21],
                decoy: data[22],
                thor: data[23],
                multi_prize: data[24],
                brick: data[25],
                rocket: data[26],
                portal: data[27],
            },
        )
    }
}

impl ShipSettings {
    /// The fields of the lane at bytes 28 and 29.
    pub open spec fn spec_packed_bits_28(&self) -> PackedShipBits28 {
        PackedShipBits28 {
            see_bomb_level: self.see_bomb_level,
            disable_fast_shooting: self.disable_fast_shooting,
            radius: self.radius,
        }
    }

    /// The fields of the lane at bytes 124 to 127.
    pub open spec fn spec_packed_bits_124(&self) -> PackedShipBits124 {
        PackedShipBits124 {
            max_shrapnel: self.max_shrapnel,
            shrapnel_rate: self.shrapnel_rate,
            cloak_status: self.cloak_status,
            stealth_status: self.stealth_status,
            xradar_status: self.xradar_status,
            antiwarp_status: self.antiwarp_status,
            initial_guns: self.initial_guns,
            max_guns: self.max_guns,
            initial_bombs: self.initial_bombs,
            max_bombs: self.max_bombs,
            double_barrel: self.double_barrel,
            emp_bomb: self.emp_bomb,
            see_mines: self.see_mines,
        }
    }

    /// Every field holds what the 144-byte record `data` says at the
    /// field's place.
    pub open spec fn decodes(&self, data: Seq<u8>) -> bool {
        &&& self.super_time == le_u32(data, 0)
        &&& self.shield_time == le_u32(data, 4)
        &&& self.gravity == le_i16(data, 8)
        &&& self.gravity_top_speed == le_i16(data, 10)
        &&& self.bullet_fire_energy == le_u16(data, 12)
        &&& self.multi_fire_energy == le_u16(data, 14)
        &&& self.bomb_fire_energy == le_u16(data, 16)
        &&& self.bomb_fire_energy_upgrade == le_u16(data, 18)
        &&& self.mine_fire_energy == le_u16(data, 20)
        &&& self.mine_fire_energy_upgrade == le_u16(data, 22)
        &&& self.bullet_speed == le_i16(data, 24)
        &&& self.bomb_speed == le_i16(data, 26)
        &&& self.spec_packed_bits_28() == PackedShipBits28::spec_decode(le_u16(data, 28))
        &&& self.multi_fire_angle == le_u16(data, 30)
        &&& self.cloak_energy == le_u16(data, 32)
        &&& self.stealth_energy == le_u16(data, 34)
        &&& self.antiwarp_energy == le_u16(data, 36)
        &&& self.xradar_energy == le_u16(data, 38)
        &&& self.maximum_rotation == le_u16(data, 40)
        &&& self.maximum_thrust == le_u16(data, 42)
        &&& self.maximum_speed == le_u16(data, 44)
        &&& self.maximum_recharge == le_u16(data, 46)
        &&& self.maximum_energy == le_u16(data, 48)
        &&& self.initial_rotation == le_u16(data, 50)
        &&& self.initial_thrust == le_u16(data, 52)
        &&& self.initial_speed == le_u16(data, 54)
        &&& self.initial_recharge == le_u16(data, 56)
        &&& self.initial_energy == le_u16(data, 58)
        &&& self.upgrade_rotation == le_u16(data, 60)
        &&& self.upgrade_thrust == le_u16(data, 62)
        &&& self.upgrade_speed == le_u16(data, 64)
        &&& self.upgrade_recharge == le_u16(data, 66)
        &&& self.upgrade_energy == le_u16(data, 68)
        &&& self.afterburner_energy == le_u16(data, 70)
        &&& self.bomb_thrust == le_u16(data, 72)
        &&& self.burst_speed == le_u16(data, 74)
        &&& self.turret_thrust_penalty == le_i16(data, 76)
        &&& self.turret_speed_penalty == le_i16(data, 78)
        &&& self.bullet_fire_delay == le_u16(data, 80)
        &&& self.multi_fire_delay == le_u16(data, 82)
        &&& self.bomb_fire_delay == le_u16(data, 84)
        &&& self.mine_fire_delay == le_u16(data, 86)
        &&& self.rocket_time == le_u16(data, 88)
        &&& self.initial_bounty == le_u16(data, 90)
        &&& self.damage_factor == le_u16(data, 92)
        &&& self.prize_share_limit == le_u16(data, 94)
        &&& self.attach_bounty == le_u16(data, 96)
        &&& self.powerball_throw_timer == le_u16(data, 98)
        &&& self.powerball_friction == le_u16(data, 100)
        &&& self.powerball_proximity == le_u16(data, 102)
        &&& self.powerball_speed == le_u16(data, 104)
        &&& self.turret_limit == data[106]
        &&& self.burst_shrapnel == data[107]
        &&& self.max_mines == data[108]
        &&& self.max_repel == data[109]
        &&& self.max_burst == data[110]
        &&& self.max_decoy == data[111]
        &&& self.max_thor == data[112]
        &&& self.max_brick == data[113]
        &&& self.max_rocket == data[114]
        &&& self.max_portal == data[115]
        &&& self.initial_repel == data[116]
        &&& self.initial_burst == data[117]
        &&& self.initial_brick == data[118]
        &&& self.initial_rocket == data[119]
        &&& self.initial_thor == data[120]
        &&& self.initial_decoy == data[121]
        &&& self.initial_portal == data[122]
        &&& self.bomb_bounce_count == data[123]
        &&& self.spec_packed_bits_124() == PackedShipBits124::spec_decode(le_u32(data, 124))
    }

    #[verifier::when_used_as_spec(spec_packed_bits_28)]
    pub fn packed_bits_28(&self) -> (r: PackedShipBits28)
        ensures
            r == self.spec_packed_bits_28(),
    {
        PackedShipBits28 {
            see_bomb_level: self.see_bomb_level,
            disable_fast_shooting: self.disable_fast_shooting,
            radius: self.radius,
        }
    }

    #[verifier::when_used_as_spec(spec_packed_bits_124)]
    pub fn packed_bits_124(&self) -> (r: PackedShipBits124)
        ensures
            r == self.spec_packed_bits_124(),
    {
        PackedShipBits124 {
            max_shrapnel: self.max_shrapnel,
            shrapnel_rate: self.shrapnel_rate,
            cloak_status: self.cloak_status,
            stealth_status: self.stealth_status,
            xradar_status: self.xradar_status,
            antiwarp_status: self.antiwarp_status,
            initial_guns: self.initial_guns,
            max_guns: self.max_guns,
            initial_bombs: self.initial_bombs,
            max_bombs: self.max_bombs,
            double_barrel: self.double_barrel,
            emp_bomb: self.emp_bomb,
            see_mines: self.see_mines,
        }
    }

    /// Decodes a ship record; only a slice of exactly 144 bytes is one.
    pub fn parse(data: &[u8]) -> (r: Option<ShipSettings>)
        ensures
            r is Some <==> data@.len() == SHIP_SETTINGS_SIZE,
            r is Some ==> r.unwrap().decodes(data@),
    {
        if data.len() != SHIP_SETTINGS_SIZE {
            return None;
        }
        let lane28 = PackedShipBits28::decode(read_u16(data, 28));
        let lane124 = PackedShipBits124::decode(read_u32(data, 124));
        Some(
            ShipSettings {
                super_time: read_u32(data, 0),
                shield_time: read_u32(data, 4),
                gravity: read_i16(data, 8),
                gravity_top_speed: read_i16(data, 10),
                bullet_fire_energy: read_u16(data, 12),
                multi_fire_energy: read_u16(data, 14),
                bomb_fire_energy: read_u16(data, 16),
                bomb_fire_energy_upgrade: read_u16(data, 18),
                mine_fire_energy: read_u16(data, 20),
                mine_fire_energy_upgrade: read_u16(data, 22),
                bullet_speed: read_i16(data, 24),
                bomb_speed: read_i16(data, 26),
                see_bomb_level: lane28.see_bomb_level,
                disable_fast_shooting: lane28.disable_fast_shooting,
                radius: lane28.radius,
                multi_fire_angle: read_u16(data, 30),
                cloak_energy: read_u16(data, 32),
                stealth_energy: read_u16(data, 34),
                antiwarp_energy: read_u16(data, 36),
                xradar_energy: read_u16(data, 38),
                maximum_rotation: read_u16(data, 40),
                maximum_thrust: read_u16(data, 42),
                maximum_speed: read_u16(data, 44),
                maximum_recharge: read_u16(data, 46),
                maximum_energy: read_u16(data, 48),
                initial_rotation: read_u16(data, 50),
                initial_thrust: read_u16(data, 52),
                initial_speed: read_u16(data, 54),
                initial_recharge: read_u16(data, 56),
                initial_energy: read_u16(data, 58),
                upgrade_rotation: read_u16(data, 60),
                upgrade_thrust: read_u16(data, 62),
                upgrade_speed: read_u16(data, 64),
                upgrade_recharge: read_u16(data, 66),
                upgrade_energy: read_u16(data, 68),
                afterburner_energy: read_u16(data, 70),
                bomb_thrust: read_u16(data, 72),
                burst_speed: read_u16(data, 74),
                turret_thrust_penalty: read_i16(data, 76),
                turret_speed_penalty: read_i16(data, 78),
                bullet_fire_delay: read_u16(data, 80),
                multi_fire_delay: read_u16(data, 82),
                bomb_fire_delay: read_u16(data, 84),
                mine_fire_delay: read_u16(data, 86),
                rocket_time: read_u16(data, 88),
                initial_bounty: read_u16(data, 90),
                damage_factor: read_u16(data, 92),
                prize_share_limit: read_u16(data, 94),
                attach_bounty: read_u16(data, 96),
                powerball_throw_timer: read_u16(data, 98),
                powerball_friction: read_u16(data, 100),
                powerball_proximity: read_u16(data, 102),
                powerball_speed: read_u16(data, 104),
                turret_limit: data[106],
                burst_shrapnel: data[107],
                max_mines: data[108],
                max_repel: data[109],
                max_burst: data[110],
                max_decoy: data[111],
                max_thor: data[112],
                max_brick: data[113],
                max_rocket: data[114],
                max_portal: data[115],
                initial_repel: data[116],
                initial_burst: data[117],
                initial_brick: data[118],
                initial_rocket: data[119],
                initial_thor: data[120],
                initial_decoy: data[121],
                initial_portal: data[122],
                bomb_bounce_count: data[123],
                max_shrapnel: lane124.max_shrapnel,
                shrapnel_rate: lane124.shrapnel_rate,
                cloak_status: lane124.cloak_status,
                stealth_status: lane124.stealth_status,
                xradar_status: lane124.xradar_status,
                antiwarp_status: lane124.antiwarp_status,
                initial_guns: lane124.initial_guns,
                max_guns: lane124.max_guns,
                initial_bombs: lane124.initial_bombs,
                max_bombs: lane124.max_bombs,
                double_barrel: lane124.double_barrel,
                emp_bomb: lane124.emp_bomb,
                see_mines: lane124.see_mines,
            },
        )
    }

    /// Packing the decoded fields of the two bit-packed lanes again gives
    /// the record's bytes 28 to 29 and 124 to 127 back, provided the bits
    /// that no field covers are zero in the record.
    pub proof fn lemma_repacking_reproduces_lanes(settings: ShipSettings, data: Seq<u8>)
        requires
            data.len() == SHIP_SETTINGS_SIZE,
            settings.decodes(data),
            le_u16(data, 28) <= 0x07FF,
            le_u32(data, 124) <= 0x1FFF_FFFF,
        ensures
            u16_bytes(settings.spec_packed_bits_28().spec_encode()) == data.subrange(28, 30),
            u32_bytes(settings.spec_packed_bits_124().spec_encode()) == data.subrange(124, 128),
    {
        PackedShipBits28::lemma_encode_decode(le_u16(data, 28));
        PackedShipBits124::lemma_encode_decode(le_u32(data, 124));
        crate::codec::lemma_u16_bytes_roundtrip(data, 28);
        crate::codec::lemma_u32_bytes_roundtrip(data, 124);
    }
}

impl ArenaSettings {
    /// Every field holds what the 1428-byte record `data` says at the
    /// field's place, and the record itself is kept unchanged.
    pub open spec fn decodes(&self, data: Seq<u8>) -> bool {
        &&& self.raw_bytes@ == data
        &&& self.exact_damage == (((le_u32(data, 0) >> 8) & 1) != 0)
        &&& self.no_spec_flags == (((le_u32(data, 0) >> 9) & 1) != 0)
        &&& self.no_spec_xradar == (((le_u32(data, 0) >> 10) & 1) != 0)
        &&& self.slow_framerate == (((le_u32(data, 0) >> 11) & 0x7) as u8)
        &&& self.disable_screenshot == (((le_u32(data, 0) >> 14) & 1) != 0)
        &&& self.max_timer_drift == (((le_u32(data, 0) >> 16) & 0x7) as u8)
        &&& self.disable_ball_through_walls == (((le_u32(data, 0) >> 19) & 1) != 0)
        &&& self.disable_ball_killing == (((le_u32(data, 0) >> 20) & 1) != 0)
        &&& self.ship_settings[0].decodes(data.subrange(4, 148))
        &&& self.ship_settings[1].decodes(data.subrange(148, 292))
        &&& self.ship_settings[2].decodes(data.subrange(292, 436))
        &&& self.ship_settings[3].decodes(data.subrange(436, 580))
        &&& self.ship_settings[4].decodes(data.subrange(580, 724))
        &&& self.ship_settings[5].decodes(data.subrange(724, 868))
        &&& self.ship_settings[6].decodes(data.subrange(868, 1012))
        &&& self.ship_settings[7].decodes(data.subrange(1012, 1156))
        &&& self.bullet_damage_level == le_i32(data, 1156)
        &&& self.bomb_damage_level == le_i32(data, 1160)
        &&& self.bullet_alive_time == le_i32(data, 1164)
        &&& self.bomb_alive_time == le_i32(data, 1168)
        &&& self.decoy_alive_time == le_i32(data, 1172)
        &&& self.safety_limit == le_i32(data, 1176)
        &&& self.frequency_shift == le_i32(data, 1180)
        &&& self.max_frequency == le_i32(data, 1184)
        &&& self.repel_speed == le_i32(data, 1188)
        &&& self.mine_alive_time == le_i32(data, 1192)
        &&& self.burst_damage_level == le_i32(data, 1196)
        &&& self.bullet_damage_upgrade == le_i32(data, 1200)
        &&& self.flag_drop_delay == le_i32(data, 1204)
        &&& self.enter_game_flagging_delay == le_i32(data, 1208)
        &&& self.rocket_thrust == le_i32(data, 1212)
        &&& self.rocket_speed == le_i32(data, 1216)
        &&& self.inactive_shrap_damage == le_i32(data, 1220)
        &&& self.wormhole_switch_time == le_i32(data, 1224)
        &&& self.activate_app_shutdown_time == le_i32(data, 1228)
        &&& self.shrapnel_speed == le_i32(data, 1232)
        &&& self.spawn_settings[0] == SpawnSettings::spec_decode(le_u32(data, 1236))
        &&& self.spawn_settings[1] == SpawnSettings::spec_decode(le_u32(data, 1240))
        &&& self.spawn_settings[2] == SpawnSettings::spec_decode(le_u32(data, 1244))
        &&& self.spawn_settings[3] == SpawnSettings::spec_decode(le_u32(data, 1248))
        &&& self.send_route_percent == le_i16(data, 1252)
        &&& self.bomb_explode_delay == le_i16(data, 1254)
        &&& self.send_position_delay == le_i16(data, 1256)
        &&& self.bomb_explode_pixels == le_i16(data, 1258)
        &&& self.death_prize_time == le_i16(data, 1260)
        &&& self.jitter_time == le_i16(data, 1262)
        &&& self.enter_delay == le_i16(data, 1264)
        &&& self.engine_shutdown_time == le_i16(data, 1266)
        &&& self.proximity_distance == le_i16(data, 1268)
        &&& self.bounty_increase_for_kill == le_i16(data, 1270)
        &&& self.bounce_factor == le_i16(data, 1272)
        &&& self.map_zoom_factor == le_i16(data, 1274)
        &&& self.max_bonus == le_i16(data, 1276)
        &&& self.max_penalty == le_i16(data, 1278)
        &&& self.reward_base == le_i16(data, 1280)
        &&& self.repel_time == le_i16(data, 1282)
        &&& self.repel_distance == le_i16(data, 1284)
        &&& self.ticker_delay == le_i16(data, 1286)
        &&& self.flagger_on_radar == le_i16(data, 1288)
        &&& self.flagger_kill_multiplier == le_i16(data, 1290)
        &&& self.prize_factor == le_i16(data, 1292)
        &&& self.prize_delay == le_i16(data, 1294)
        &&& self.minimum_virtual == le_i16(data, 1296)
        &&& self.upgrade_virtual == le_i16(data, 1298)
        &&& self.prize_max_exist == le_i16(data, 1300)
        &&& self.prize_min_exist == le_i16(data, 1302)
        &&& self.prize_negative_factor == le_i16(data, 1304)
        &&& self.door_delay == le_i16(data, 1306)
        &&& self.antiwarp_pixels == le_i16(data, 1308)
        &&& self.door_mode == le_i16(data, 1310)
        &&& self.flag_blank_delay == le_i16(data, 1312)
        &&& self.no_data_flag_drop_delay == le_i16(data, 1314)
        &&& self.multi_prize_count == le_i16(data, 1316)
        &&& self.brick_time == le_i16(data, 1318)
        &&& self.warp_radius_limit == le_i16(data, 1320)
        &&& self.ebomb_shutdown_time == le_i16(data, 1322)
        &&& self.ebomb_damage_percent == le_i16(data, 1324)
        &&& self.radar_neutral_size == le_i16(data, 1326)
        &&& self.warp_point_delay == le_i16(data, 1328)
        &&& self.near_death_level == le_i16(data, 1330)
        &&& self.bouncing_bomb_damage_percent == le_i16(data, 1332)
        &&& self.shrapnel_damage_percent == le_i16(data, 1334)
        &&& self.client_slow_packet_time == le_i16(data, 1336)
        &&& self.flag_drop_reset_reward == le_i16(data, 1338)
        &&& self.flagger_fire_cost_percent == le_i16(data, 1340)
        &&& self.flagger_damage_percent == le_i16(data, 1342)
        &&& self.flagger_bomb_fire_delay == le_i16(data, 1344)
        &&& self.powerball_pass_delay == le_i16(data, 1346)
        &&& self.powerball_blank_delay == le_i16(data, 1348)
        &&& self.s2c_no_data_kickout_delay == le_i16(data, 1350)
        &&& self.flagger_thrust_adjustment == le_i16(data, 1352)
        &&& self.flagger_speed_adjustment == le_i16(data, 1354)
        &&& self.client_slow_packet_sample_size == le_i16(data, 1356)
        &&& self.shrapnel_random == ((data[1368] & 1) != 0)
        &&& self.powerball_bounce == ((data[1369] & 1) != 0)
        &&& self.powerball_bomb_allowed == ((data[1370] & 1) != 0)
        &&& self.powerball_gun_allowed == ((data[1371] & 1) != 0)
        &&& self.powerball_mode == data[1372]
        &&& self.max_per_team == data[1373]
        &&& self.max_per_private_team == data[1374]
        &&& self.team_max_mines == data[1375]
        &&& self.gravity_bombs == ((data[1376] & 1) != 0)
        &&& self.bomb_safety == ((data[1377] & 1) != 0)
        &&& self.message_reliable == ((data[1378] & 1) != 0)
        &&& self.take_prize_reliable == ((data[1379] & 1) != 0)
        &&& self.allow_audio_messages == ((data[1380] & 1) != 0)
        &&& self.prize_hide_count == data[1381]
        &&& self.extra_position_data == ((data[1382] & 1) != 0)
        &&& self.slow_frame_check == ((data[1383] & 1) != 0)
        &&& self.carry_flags == data[1384]
        &&& self.allow_saved_ships == ((data[1385] & 1) != 0)
        &&& self.radar_mode == data[1386]
        &&& self.victory_music == ((data[1387] & 1) != 0)
        &&& self.flagger_gun_upgrade == ((data[1388] & 1) != 0)
        &&& self.flagger_bomb_upgrade == ((data[1389] & 1) != 0)
        &&& self.powerball_flag_upgrades == ((data[1390] & 1) != 0)
        &&& self.powerball_global_position == ((data[1391] & 1) != 0)
        &&& self.antiwarp_settle_delay == data[1392]
        &&& self.prize_weights.decodes(data.subrange(1400, 1428))
    }

    /// Decodes the arena settings record; only a slice of exactly 1428
    /// bytes is one.
    pub fn parse(data: &[u8]) -> (r: Option<ArenaSettings>)
        ensures
            r is Some <==> data@.len() == ARENA_SETTINGS_SIZE,
            r is Some ==> r.unwrap().decodes(data@),
    {
        if data.len() != ARENA_SETTINGS_SIZE {
            return None;
        }
        let packed: u32 = read_u32(data, 0);
        let ship_settings = parse_ship_table(data);
        let spawn_settings = parse_spawn_table(data);
        let prize_weights = match PrizeWeightSettings::parse(&data[1400..1428]) {
            Some(weights) => weights,
            None => return None,
        };
        let raw_bytes = copy_bytes(data);
        Some(
            ArenaSettings {
                exact_damage: ((packed >> 8) & 1) != 0,
                no_spec_flags: ((packed >> 9) & 1) != 0,
                no_spec_xradar: ((packed >> 10) & 1) != 0,
                slow_framerate: ((packed >> 11) & 0x7) as u8,
                disable_screenshot: ((packed >> 14) & 1) != 0,
                max_timer_drift: ((packed >> 16) & 0x7) as u8,
                disable_ball_through_walls: ((packed >> 19) & 1) != 0,
                disable_ball_killing: ((packed >> 20) & 1) != 0,
                ship_settings,
                bullet_damage_level: read_i32(data, 1156),
                bomb_damage_level: read_i32(data, 1160),
                bullet_alive_time: read_i32(data, 1164),
                bomb_alive_time: read_i32(data, 1168),
                decoy_alive_time: read_i32(data, 1172),
                safety_limit: read_i32(data, 1176),
                frequency_shift: read_i32(data, 1180),
                max_frequency: read_i32(data, 1184),
                repel_speed: read_i32(data, 1188),
                mine_alive_time: read_i32(data, 1192),
                burst_damage_level: read_i32(data, 1196),
                bullet_damage_upgrade: read_i32(data, 1200),
                flag_drop_delay: read_i32(data, 1204),
                enter_game_flagging_delay: read_i32(data, 1208),
                rocket_thrust: read_i32(data, 1212),
                rocket_speed: read_i32(data, 1216),
                inactive_shrap_damage: read_i32(data, 1220),
                wormhole_switch_time: read_i32(data, 1224),
                activate_app_shutdown_time: read_i32(data, 1228),
                shrapnel_speed: read_i32(data, 1232),
                spawn_settings,
                send_route_percent: read_i16(data, 1252),
                bomb_explode_delay: read_i16(data, 1254),
                send_position_delay: read_i16(data, 1256),
                bomb_explode_pixels: read_i16(data, 1258),
                death_prize_time: read_i16(data, 1260),
                jitter_time: read_i16(data, 1262),
                enter_delay: read_i16(data, 1264),
                engine_shutdown_time: read_i16(data, 1266),
                proximity_distance: read_i16(data, 1268),
                bounty_increase_for_kill: read_i16(data, 1270),
                bounce_factor: read_i16(data, 1272),
                map_zoom_factor: read_i16(data, 1274),
                max_bonus: read_i16(data, 1276),
                max_penalty: read_i16(data, 1278),
                reward_base: read_i16(data, 1280),
                repel_time: read_i16(data, 1282),
                repel_distance: read_i16(data, 1284),
                ticker_delay: read_i16(data, 1286),
                flagger_on_radar: read_i16(data, 1288),
                flagger_kill_multiplier: read_i16(data, 1290),
                prize_factor: read_i16(data, 1292),
                prize_delay: read_i16(data, 1294),
                minimum_virtual: read_i16(data, 1296),
                upgrade_virtual: read_i16(data, 1298),
                prize_max_exist: read_i16(data, 1300),
                prize_min_exist: read_i16(data, 1302),
                prize_negative_factor: read_i16(data, 1304),
                door_delay: read_i16(data, 1306),
                antiwarp_pixels: read_i16(data, 1308),
                door_mode: read_i16(data, 1310),
                flag_blank_delay: read_i16(data, 1312),
                no_data_flag_drop_delay: read_i16(data, 1314),
                multi_prize_count: read_i16(data, 1316),
                brick_time: read_i16(data, 1318),
                warp_radius_limit: read_i16(data, 1320),
                ebomb_shutdown_time: read_i16(data, 1322),
                ebomb_damage_percent: read_i16(data, 1324),
                radar_neutral_size: read_i16(data, 1326),
                warp_point_delay: read_i16(data, 1328),
                near_death_level: read_i16(data, 1330),
                bouncing_bomb_damage_percent: read_i16(data, 1332),
                shrapnel_damage_percent: read_i16(data, 1334),
                client_slow_packet_time: read_i16(data, 1336),
                flag_drop_reset_reward: read_i16(data, 1338),
                flagger_fire_cost_percent: read_i16(data, 1340),
                flagger_damage_percent: read_i16(data, 1342),
                flagger_bomb_fire_delay: read_i16(data, 1344),
                powerball_pass_delay: read_i16(data, 1346),
                powerball_blank_delay: read_i16(data, 1348),
                s2c_no_data_kickout_delay: read_i16(data, 1350),
                flagger_thrust_adjustment: read_i16(data, 1352),
                flagger_speed_adjustment: read_i16(data, 1354),
                client_slow_packet_sample_size: read_i16(data, 1356),
                shrapnel_random: (data[1368] & 1) != 0,
                powerball_bounce: (data[1369] & 1) != 0,
                powerball_bomb_allowed: (data[1370] & 1) != 0,
                powerball_gun_allowed: (data[1371] & 1) != 0,
                powerball_mode: data[1372],
                max_per_team: data[1373],
                max_per_private_team: data[1374],
                team_max_mines: data[1375],
                gravity_bombs: (data[1376] & 1) != 0,
                bomb_safety: (data[1377] & 1) != 0,
                message_reliable: (data[1378] & 1) != 0,
                take_prize_reliable: (data[1379] & 1) != 0,
                allow_audio_messages: (data[1380] & 1) != 0,
                prize_hide_count: data[1381],
                extra_position_data: (data[1382] & 1) != 0,
                slow_frame_check: (data[1383] & 1) != 0,
                carry_flags: data[1384],
                allow_saved_ships: (data[1385] & 1) != 0,
                radar_mode: data[1386],
                victory_music: (data[1387] & 1) != 0,
                flagger_gun_upgrade: (data[1388] & 1) != 0,
                flagger_bomb_upgrade: (data[1389] & 1) != 0,
                powerball_flag_upgrades: (data[1390] & 1) != 0,
                powerball_global_position: (data[1391] & 1) != 0,
                antiwarp_settle_delay: data[1392],
                prize_weights,
                raw_bytes,
            },
        )
    }
}

fn parse_ship_table(data: &[u8]) -> (r: [ShipSettings; 8])
    requires
        data@.len() == ARENA_SETTINGS_SIZE,
    ensures
        r[0].decodes(data@.subrange(4, 148)),
        r[1].decodes(data@.subrange(148, 292)),
        r[2].decodes(data@.subrange(292, 436)),
        r[3].decodes(data@.subrange(436, 580)),
        r[4].decodes(data@.subrange(580, 724)),
        r[5].decodes(data@.subrange(724, 868)),
        r[6].decodes(data@.subrange(868, 1012)),
        r[7].decodes(data@.subrange(1012, 1156)),
{
    let ship0 = ShipSettings::parse(&data[4..148]).unwrap();
    let ship1 = ShipSettings::parse(&data[148..292]).unwrap();
    let ship2 = ShipSettings::parse(&data[292..436]).unwrap();
    let ship3 = ShipSettings::parse(&data[436..580]).unwrap();
    let ship4 = ShipSettings::parse(&data[580..724]).unwrap();
    let ship5 = ShipSettings::parse(&data[724..868]).unwrap();
    let ship6 = ShipSettings::parse(&data[868..1012]).unwrap();
    let ship7 = ShipSettings::parse(&data[1012..1156]).unwrap();
    [ship0, ship1, ship2, ship3, ship4, ship5, ship6, ship7]
}

fn parse_spawn_table(data: &[u8]) -> (r: [SpawnSettings; 4])
    requires
        data@.len() == ARENA_SETTINGS_SIZE,
    ensures
        r[0] == SpawnSettings::spec_decode(le_u32(data@, 1236)),
        r[1] == SpawnSettings::spec_decode(le_u32(data@, 1240)),
        r[2] == SpawnSettings::spec_decode(le_u32(data@, 1244)),
        r[3] == SpawnSettings::spec_decode(le_u32(data@, 1248)),
{
    [
        SpawnSettings::decode(read_u32(data, 1236)),
        SpawnSettings::decode(read_u32(data, 1240)),
        SpawnSettings::decode(read_u32(data, 1244)),
        SpawnSettings::decode(read_u32(data, 1248)),
    ]
}

/// An owned copy of a byte slice.
pub fn copy_bytes(data: &[u8]) -> (r: Vec<u8>)
    ensures
        r@ == data@,
{
    let mut r: Vec<u8> = Vec::new();
    r.extend_from_slice(data);
    r
}

} // verus!

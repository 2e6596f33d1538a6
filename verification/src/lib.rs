//! Client-side protocol engine for the Subspace/Continuum game network
//! protocol: stream cipher, reliable transport, clock synchronisation,
//! message codecs and the session state machine.

pub mod arena_settings;
pub mod checksum;
pub mod client;
pub mod clock;
pub mod codec;
pub mod error;
pub mod map;
pub mod math;
pub mod net;
pub mod player;
pub mod ship;
pub mod text;
pub mod weapon;

//! The network layers: packets and their codecs, the stream cipher and
//! the connection state.

pub mod connection;
pub mod crypt;
pub mod packet;
pub mod rand;

//! The nine ship classes and their numbers on the wire.

use vstd::prelude::*;

verus! {

#[derive(Copy, Clone, Debug, PartialEq, Eq, Structural)]
pub enum Ship {
    Warbird,
    Javelin,
    Spider,
    Leviathan,
    Terrier,
    Weasel,
    Lancaster,
    Shark,
    Spectator,
}

impl Ship {
    /// The number that stands for this ship on the wire: 0 for the
    /// Warbird up to 8 for the spectator.
    pub open spec fn spec_network_value(&self) -> u8 {
        match self {
            Ship::Warbird => 0,
            Ship::Javelin => 1,
            Ship::Spider => 2,
            Ship::Leviathan => 3,
            Ship::Terrier => 4,
            Ship::Weasel => 5,
            Ship::Lancaster => 6,
            Ship::Shark => 7,
            Ship::Spectator => 8,
        }
    }

    /// The ship that a wire number stands for; every number above 8
    /// reads as the spectator.
    pub open spec fn spec_from_network_value(v: u8) -> Ship {
        match v {
            0 => Ship::Warbird,
            1 => Ship::Javelin,
            2 => Ship::Spider,
            3 => Ship::Leviathan,
            4 => Ship::Terrier,
            5 => Ship::Weasel,
            6 => Ship::Lancaster,
            7 => Ship::Shark,
            _ => Ship::Spectator,
        }
    }

    #[verifier::when_used_as_spec(spec_network_value)]
    pub fn network_value(&self) -> (r: u8)
        ensures
            r == self.spec_network_value(),
    {
        match self {
            Ship::Warbird => 0,
            Ship::Javelin => 1,
            Ship::Spider => 2,
            Ship::Leviathan => 3,
            Ship::Terrier => 4,
            Ship::Weasel => 5,
            Ship::Lancaster => 6,
            Ship::Shark => 7,
            Ship::Spectator => 8,
        }
    }

    #[verifier::when_used_as_spec(spec_from_network_value)]
    pub fn from_network_value(v: u8) -> (r: Ship)
        ensures
            r == Self::spec_from_network_value(v),
    {
        match v {
            0 => Ship::Warbird,
            1 => Ship::Javelin,
            2 => Ship::Spider,
            3 => Ship::Leviathan,
            4 => Ship::Terrier,
            5 => Ship::Weasel,
            6 => Ship::Lancaster,
            7 => Ship::Shark,
            _ => Ship::Spectator,
        }
    }

    /// Reading back a ship's wire number gives the ship.
    pub proof fn lemma_network_value_roundtrip(ship: Ship)
        ensures
            Self::spec_from_network_value(ship.spec_network_value()) == ship,
            ship.spec_network_value() <= 8,
    {
    }
}

} // verus!

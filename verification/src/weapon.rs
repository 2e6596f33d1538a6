//! The 16-bit weapon descriptor carried by position updates.
//!
//! Bit layout, from the least significant bit: kind (5 bits), level (2),
//! bouncing shrapnel (1), shrapnel level (2), shrapnel count (5),
//! alternate fire (1).

use vstd::prelude::*;
use vstd::std_specs::convert::FromSpecImpl;

verus! {

#[derive(Debug, Copy, Clone, PartialEq, Eq, Structural)]
pub enum WeaponKind {
    NoWeapon,
    Bullet,
    BouncingBullet,
    Bomb,
    ProximityBomb,
    Repel,
    Decoy,
    Burst,
    Thor,
    Shrapnel,
}

impl WeaponKind {
    /// The kind that a number stands for: 0 to 8 in the order of the
    /// variants, 15 for shrapnel, and no weapon for any other number.
    pub open spec fn of_value(v: u16) -> WeaponKind {
        match v {
            1 => WeaponKind::Bullet,
            2 => WeaponKind::BouncingBullet,
            3 => WeaponKind::Bomb,
            4 => WeaponKind::ProximityBomb,
            5 => WeaponKind::Repel,
            6 => WeaponKind::Decoy,
            7 => WeaponKind::Burst,
            8 => WeaponKind::Thor,
            15 => WeaponKind::Shrapnel,
            _ => WeaponKind::NoWeapon,
        }
    }
}

impl FromSpecImpl<u16> for WeaponKind {
    open spec fn obeys_from_spec() -> bool {
        true
    }

    open spec fn from_spec(v: u16) -> WeaponKind {
        WeaponKind::of_value(v)
    }
}

impl From<u16> for WeaponKind {
    fn from(v: u16) -> (r: WeaponKind) {
        match v {
            1 => WeaponKind::Bullet,
            2 => WeaponKind::BouncingBullet,
            3 => WeaponKind::Bomb,
            4 => WeaponKind::ProximityBomb,
            5 => WeaponKind::Repel,
            6 => WeaponKind::Decoy,
            7 => WeaponKind::Burst,
            8 => WeaponKind::Thor,
            15 => WeaponKind::Shrapnel,
            _ => WeaponKind::NoWeapon,
        }
    }
}

#[derive(Copy, Clone, PartialEq, Eq, Structural)]
pub struct WeaponData {
    value: u16,
}

impl WeaponData {
    /// The packed 16 bits.
    pub closed spec fn spec_value(&self) -> u16 {
        self.value
    }

    /// Two descriptors with the same bits are the same descriptor.
    pub proof fn lemma_value_injective(a: WeaponData, b: WeaponData)
        ensures
            a.spec_value() == b.spec_value() <==> a == b,
    {
    }

    pub fn new(value: u16) -> (r: Self)
        ensures
            r.spec_value() == value,
    {
        Self { value }
    }

    #[verifier::when_used_as_spec(spec_value)]
    pub fn value(&self) -> (r: u16)
        ensures
            r == self.spec_value(),
    {
        self.value
    }

    pub fn kind(&self) -> (r: WeaponKind)
        ensures
            r == WeaponKind::of_value(self.spec_value() & 0x1F),
    {
        WeaponKind::from(self.value & 0x1F)
    }

    pub fn level(&self) -> (r: u8)
        ensures
            r == ((self.spec_value() >> 5) & 0x03) as u8,
    {
        ((self.value >> 5) & 0x03) as u8
    }

    pub fn shrapnel_bouncing(&self) -> (r: bool)
        ensures
            r == ((self.spec_value() >> 7) & 0x01 != 0),
    {
        (self.value >> 7) & 0x01 != 0
    }

    pub fn shrapnel_level(&self) -> (r: u8)
        ensures
            r == ((self.spec_value() >> 8) & 0x03) as u8,
    {
        ((self.value >> 8) & 0x03) as u8
    }

    pub fn shrapnel_count(&self) -> (r: u8)
        ensures
            r == ((self.spec_value() >> 10) & 0x1F) as u8,
    {
        ((self.value >> 10) & 0x1F) as u8
    }

    pub fn alternate(&self) -> (r: bool)
        ensures
            r == ((self.spec_value() >> 15) & 0x01 != 0),
    {
        (self.value >> 15) & 0x01 != 0
    }
}

impl FromSpecImpl<u16> for WeaponData {
    open spec fn obeys_from_spec() -> bool {
        true
    }

    closed spec fn from_spec(value: u16) -> WeaponData {
        WeaponData { value }
    }
}

impl From<u16> for WeaponData {
    fn from(value: u16) -> (r: WeaponData) {
        WeaponData { value }
    }
}

} // verus!

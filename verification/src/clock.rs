//! Wrap-safe 31-bit tick arithmetic for the local and the server clock.
//!
//! A tick is one hundredth of a second. Both clocks count modulo 2^31, and
//! two ticks are ordered by their signed distance on that circle.

use core::cmp::Ordering;
use core::ops::{Add, Sub};
use core::time::Duration;
use std::time::{SystemTime, UNIX_EPOCH};
use vstd::prelude::*;
use vstd::std_specs::cmp::PartialOrdSpec;
use vstd::std_specs::convert::FromSpecImpl;
use vstd::std_specs::ops::{AddSpecImpl, SubSpecImpl};

verus! {

/// Number of distinct tick values.
pub const TICK_MODULUS: u32 = 0x8000_0000;

/// The tick that the integer `x` names on the 31-bit circle.
pub open spec fn tick_wrap(x: int) -> u32 {
    (x % 0x8000_0000) as u32
}

/// Signed distance from tick `b` to tick `a`: the representative of
/// `a - b` modulo 2^31 that lies in `[-2^30, 2^30)`.
pub open spec fn tick_diff(a: u32, b: u32) -> int {
    let d = (a as int - b as int) % 0x8000_0000;
    if d >= 0x4000_0000 {
        d - 0x8000_0000
    } else {
        d
    }
}

/// How two ticks compare: by the sign of their distance.
pub open spec fn tick_order(a: u32, b: u32) -> Ordering {
    if tick_diff(a, b) < 0 {
        Ordering::Less
    } else if tick_diff(a, b) == 0 {
        Ordering::Equal
    } else {
        Ordering::Greater
    }
}

/// The tick that a wall-clock reading in milliseconds falls into, before
/// wrapping: milliseconds divided by ten, truncated to 32 bits.
pub open spec fn millis_to_raw_tick(millis: u128) -> u32 {
    ((millis / 10) % 0x1_0000_0000) as u32
}

/// The low 16 bits of `now` minus `mini`, read as a signed 16-bit number.
pub open spec fn mini_delta(now: u32, mini: u16) -> int {
    let d = (now as int - mini as int) % 65536;
    if d >= 32768 {
        d - 65536
    } else {
        d
    }
}

/// The low 10 bits of `now` minus the low 10 bits of `batched`.
pub open spec fn batched_delta(now: u32, batched: u16) -> int {
    (now % 1024) as int - (batched % 1024) as int
}

/// `std::time::SystemTime`, a reading of the system clock.
#[verifier::external_type_specification]
#[verifier::external_body]
pub struct ExSystemTime(std::time::SystemTime);

/// `SystemTime::now`: the system clock's present reading. Nothing is
/// claimed about it.
#[verifier::external_body]
fn system_time_now() -> (r: SystemTime) {
    SystemTime::now()
}

/// `SystemTime::duration_since` against `UNIX_EPOCH`: the time that has
/// passed since the epoch, or nothing for a reading that lies before the
/// epoch. Nothing is claimed about the duration.
#[verifier::external_body]
fn since_unix_epoch(reading: &SystemTime) -> (r: Option<Duration>) {
    match reading.duration_since(UNIX_EPOCH) {
        Ok(elapsed) => Some(elapsed),
        Err(_) => None,
    }
}

/// `Duration::as_millis`: the whole milliseconds of a duration. Nothing is
/// claimed about their number.
#[verifier::external_body]
fn whole_millis(elapsed: &Duration) -> (r: u128) {
    elapsed.as_millis()
}

/// Milliseconds since the Unix epoch by the system clock, or nothing when
/// the clock is set before the epoch.
fn wall_clock_millis() -> (r: Option<u128>) {
    let reading = system_time_now();
    match since_unix_epoch(&reading) {
        Some(elapsed) => Some(whole_millis(&elapsed)),
        None => None,
    }
}

fn wrap_sum(value: u32, delta: i32) -> (r: u32)
    ensures
        r == tick_wrap(value as int + delta as int),
        r < TICK_MODULUS,
{
    let shifted: i64 = (value as i64) + (delta as i64) + 0x1_0000_0000;
    ((shifted as u64) % 0x8000_0000) as u32
}

fn signed_distance(a: u32, b: u32) -> (r: i32)
    ensures
        r == tick_diff(a, b),
{
    let d: u64 = (((a as i64) - (b as i64) + 0x1_0000_0000) as u64) % 0x8000_0000;
    if d >= 0x4000_0000 {
        ((d as i64) - 0x8000_0000) as i32
    } else {
        d as i32
    }
}

fn raw_tick_of_millis(millis: u128) -> (r: u32)
    ensures
        r == millis_to_raw_tick(millis),
{
    ((millis / 10) % 0x1_0000_0000) as u32
}

fn wrap_difference(value: u32, delta: i32) -> (r: u32)
    ensures
        r == tick_wrap(value as int - delta as int),
        r < TICK_MODULUS,
{
    let shifted: i64 = (value as i64) - (delta as i64) + 0x1_0000_0000;
    ((shifted as u64) % 0x8000_0000) as u32
}

/// A tick of the process clock.
#[derive(PartialEq, Eq, Copy, Clone, Structural)]
pub struct LocalTick {
    value: u32,
}

impl LocalTick {
    /// The counter value.
    pub closed spec fn spec_value(&self) -> u32 {
        self.value
    }

    /// The tick whose counter is `c` reduced to 31 bits.
    pub closed spec fn spec_from_counter(c: u32) -> LocalTick {
        LocalTick { value: c % TICK_MODULUS }
    }

    /// A tick is valid when its counter fits in 31 bits.
    pub open spec fn wf(&self) -> bool {
        self.spec_value() < TICK_MODULUS
    }

    /// Two ticks with the same counter are the same tick.
    pub proof fn lemma_value_injective(a: LocalTick, b: LocalTick)
        ensures
            a.spec_value() == b.spec_value() <==> a == b,
    {
    }

    /// The tick made from a counter is valid and carries that counter
    /// reduced to 31 bits.
    pub proof fn lemma_from_counter(c: u32)
        ensures
            Self::spec_from_counter(c).wf(),
            Self::spec_from_counter(c).spec_value() == tick_wrap(c as int),
    {
    }

    /// The tick of the current wall-clock time. A clock set before the
    /// Unix epoch reads as tick zero.
    pub fn now() -> (r: Self)
        ensures
            r.wf(),
    {
        match wall_clock_millis() {
            Some(millis) => Self::from_millis(millis),
            None => Self::new(0),
        }
    }

    /// The tick that `millis` milliseconds since the epoch fall into.
    pub fn from_millis(millis: u128) -> (r: Self)
        ensures
            r.wf(),
            r.spec_value() == tick_wrap(millis_to_raw_tick(millis) as int),
    {
        Self::new(raw_tick_of_millis(millis))
    }

    /// The tick with counter `value`, reduced to 31 bits.
    pub fn new(value: u32) -> (r: Self)
        ensures
            r.wf(),
            r.spec_value() == tick_wrap(value as int),
            r == Self::spec_from_counter(value),
    {
        Self { value: value % TICK_MODULUS }
    }

    #[verifier::when_used_as_spec(spec_value)]
    pub fn value(&self) -> (r: u32)
        ensures
            r == self.spec_value(),
    {
        self.value
    }

    /// Signed distance from `other` to `self`.
    pub fn diff(&self, other: &Self) -> (r: i32)
        ensures
            r == tick_diff(self.spec_value(), other.spec_value()),
    {
        signed_distance(self.value, other.value)
    }

    /// The later of two ticks; `other` when neither is later.
    pub fn max(self, other: Self) -> (r: Self)
        ensures
            r == if tick_diff(self.spec_value(), other.spec_value()) > 0 {
                self
            } else {
                other
            },
    {
        if self.diff(&other) > 0 {
            self
        } else {
            other
        }
    }

    /// The earlier of two ticks; `other` when neither is earlier.
    pub fn min(self, other: Self) -> (r: Self)
        ensures
            r == if tick_diff(self.spec_value(), other.spec_value()) < 0 {
                self
            } else {
                other
            },
    {
        if self.diff(&other) < 0 {
            self
        } else {
            other
        }
    }

    /// Raises `self` to `min` when it is earlier, then lowers the outcome
    /// to `max` when that is later.
    pub fn clamp(self, min: Self, max: Self) -> (r: Self)
        ensures
            r == ({
                let raised = if tick_diff(self.spec_value(), min.spec_value()) < 0 {
                    min
                } else {
                    self
                };
                if tick_diff(raised.spec_value(), max.spec_value()) > 0 {
                    max
                } else {
                    raised
                }
            }),
    {
        let mut result = self;
        if result.diff(&min) < 0 {
            result = min;
        }
        if result.diff(&max) > 0 {
            result = max;
        }
        result
    }

    /// Ticks compare by the sign of their distance, and within half the
    /// circle the distance is antisymmetric, so `a < b` exactly when
    /// `b > a`.
    pub proof fn lemma_order_is_sign_of_diff(a: LocalTick, b: LocalTick)
        requires
            a.wf(),
            b.wf(),
        ensures
            a.partial_cmp_spec(&b) == Some(Ordering::Less) <==> tick_diff(
                a.spec_value(),
                b.spec_value(),
            ) < 0,
            a.partial_cmp_spec(&b) == Some(Ordering::Equal) <==> a == b,
            -0x4000_0000 < tick_diff(a.spec_value(), b.spec_value()) ==> tick_diff(
                b.spec_value(),
                a.spec_value(),
            ) == -tick_diff(a.spec_value(), b.spec_value()),
            -0x4000_0000 < tick_diff(a.spec_value(), b.spec_value()) ==> (a.partial_cmp_spec(&b)
                == Some(Ordering::Less) <==> b.partial_cmp_spec(&a) == Some(Ordering::Greater)),
    {
    }
}

impl AddSpecImpl<i32> for LocalTick {
    open spec fn obeys_add_spec() -> bool {
        true
    }

    open spec fn add_req(self, rhs: i32) -> bool {
        true
    }

    open spec fn add_spec(self, rhs: i32) -> LocalTick {
        LocalTick::spec_from_counter(tick_wrap(self.spec_value() as int + rhs as int))
    }
}

impl Add<i32> for LocalTick {
    type Output = LocalTick;

    /// Moves the tick forward by `rhs`, wrapping on the 31-bit circle.
    fn add(self, rhs: i32) -> (r: LocalTick) {
        LocalTick { value: wrap_sum(self.value, rhs) }
    }
}

impl SubSpecImpl<i32> for LocalTick {
    open spec fn obeys_sub_spec() -> bool {
        true
    }

    open spec fn sub_req(self, rhs: i32) -> bool {
        true
    }

    open spec fn sub_spec(self, rhs: i32) -> LocalTick {
        LocalTick::spec_from_counter(tick_wrap(self.spec_value() as int - rhs as int))
    }
}

impl Sub<i32> for LocalTick {
    type Output = LocalTick;

    /// Moves the tick back by `rhs`, wrapping on the 31-bit circle.
    fn sub(self, rhs: i32) -> (r: LocalTick) {
        LocalTick { value: wrap_difference(self.value, rhs) }
    }
}

impl vstd::std_specs::cmp::PartialOrdSpecImpl for LocalTick {
    open spec fn obeys_partial_cmp_spec() -> bool {
        true
    }

    open spec fn partial_cmp_spec(&self, other: &LocalTick) -> Option<Ordering> {
        Some(tick_order(self.spec_value(), other.spec_value()))
    }
}

impl PartialOrd for LocalTick {
    /// Orders two ticks by the sign of their distance.
    fn partial_cmp(&self, other: &Self) -> (r: Option<Ordering>) {
        let d: i32 = self.diff(other);
        if d < 0 {
            Some(Ordering::Less)
        } else if d == 0 {
            Some(Ordering::Equal)
        } else {
            Some(Ordering::Greater)
        }
    }
}

impl FromSpecImpl<u32> for LocalTick {
    open spec fn obeys_from_spec() -> bool {
        true
    }

    open spec fn from_spec(value: u32) -> LocalTick {
        LocalTick::spec_from_counter(value)
    }
}

impl From<u32> for LocalTick {
    fn from(value: u32) -> (r: LocalTick) {
        LocalTick { value: value % TICK_MODULUS }
    }
}

/// A tick of the server clock: a local tick moved by a signed offset.
#[derive(PartialEq, Eq, Copy, Clone, Structural)]
pub struct ServerTick {
    value: u32,
}

impl ServerTick {
    /// The counter value.
    pub closed spec fn spec_value(&self) -> u32 {
        self.value
    }

    /// The tick whose counter is `c` reduced to 31 bits.
    pub closed spec fn spec_from_counter(c: u32) -> ServerTick {
        ServerTick { value: c % TICK_MODULUS }
    }

    /// A tick is valid when its counter fits in 31 bits.
    pub open spec fn wf(&self) -> bool {
        self.spec_value() < TICK_MODULUS
    }

    /// Two ticks with the same counter are the same tick.
    pub proof fn lemma_value_injective(a: ServerTick, b: ServerTick)
        ensures
            a.spec_value() == b.spec_value() <==> a == b,
    {
    }

    /// The tick made from a counter is valid and carries that counter
    /// reduced to 31 bits.
    pub proof fn lemma_from_counter(c: u32)
        ensures
            Self::spec_from_counter(c).wf(),
            Self::spec_from_counter(c).spec_value() == tick_wrap(c as int),
    {
    }

    /// The server tick of the current wall-clock time under `offset`.
    /// A clock set before the Unix epoch reads as local tick zero.
    pub fn now(offset: i32) -> (r: Self)
        ensures
            r.wf(),
    {
        match wall_clock_millis() {
            Some(millis) => Self::from_millis(millis, offset),
            None => Self::new(0, offset),
        }
    }

    /// The server tick at `millis` milliseconds since the epoch under
    /// `offset`.
    pub fn from_millis(millis: u128, offset: i32) -> (r: Self)
        ensures
            r.wf(),
            r.spec_value() == tick_wrap(millis_to_raw_tick(millis) as int + offset as int),
    {
        Self::new(raw_tick_of_millis(millis), offset)
    }

    /// The server tick that local counter `value` maps to under `offset`.
    pub fn new(value: u32, offset: i32) -> (r: Self)
        ensures
            r.wf(),
            r.spec_value() == tick_wrap(value as int + offset as int),
    {
        Self { value: wrap_sum(value, offset) }
    }

    /// Tick zero.
    pub fn empty() -> (r: Self)
        ensures
            r.wf(),
            r.spec_value() == 0,
    {
        Self { value: 0 }
    }

    /// Rebuilds a full tick from its low 16 bits `value`, next to the
    /// current tick `now`: the signed 16-bit distance of the low bits is
    /// taken off `now`.
    pub fn from_mini(now: ServerTick, value: u16) -> (r: Self)
        ensures
            r.wf(),
            r.spec_value() == tick_wrap(
                now.spec_value() as int - mini_delta(now.spec_value(), value),
            ),
    {
        let low: u32 = now.value % 65536;
        let d: u32 = (low + 65536 - (value as u32)) % 65536;
        proof {
            let q = now.value as int / 65536;
            let rest = low as int - value as int;
            vstd::arithmetic::div_mod::lemma_mod_multiples_vanish(q, rest, 65536);
            vstd::arithmetic::div_mod::lemma_mod_multiples_vanish(1, rest, 65536);
        }
        let delta: i32 = if d >= 32768 {
            (d as i32) - 65536
        } else {
            d as i32
        };
        Self { value: wrap_difference(now.value, delta) }
    }

    /// Rebuilds a full tick from its low 10 bits `value`, next to the
    /// current tick `now`: the distance of the low 10 bits is taken off
    /// `now`.
    pub fn from_batched(now: ServerTick, value: u16) -> (r: Self)
        ensures
            r.wf(),
            r.spec_value() == tick_wrap(
                now.spec_value() as int - batched_delta(now.spec_value(), value),
            ),
    {
        let low: i32 = (now.value % 1024) as i32;
        let got: i32 = (value % 1024) as i32;
        Self { value: wrap_difference(now.value, low - got) }
    }

    #[verifier::when_used_as_spec(spec_value)]
    pub fn value(&self) -> (r: u32)
        ensures
            r == self.spec_value(),
    {
        self.value
    }

    /// Signed distance from `other` to `self`.
    pub fn diff(&self, other: &Self) -> (r: i32)
        ensures
            r == tick_diff(self.spec_value(), other.spec_value()),
    {
        signed_distance(self.value, other.value)
    }

    /// The later of two ticks; `other` when neither is later.
    pub fn max(self, other: Self) -> (r: Self)
        ensures
            r == if tick_diff(self.spec_value(), other.spec_value()) > 0 {
                self
            } else {
                other
            },
    {
        if self.diff(&other) > 0 {
            self
        } else {
            other
        }
    }

    /// The earlier of two ticks; `other` when neither is earlier.
    pub fn min(self, other: Self) -> (r: Self)
        ensures
            r == if tick_diff(self.spec_value(), other.spec_value()) < 0 {
                self
            } else {
                other
            },
    {
        if self.diff(&other) < 0 {
            self
        } else {
            other
        }
    }

    /// Raises `self` to `min` when it is earlier, then lowers the outcome
    /// to `max` when that is later.
    pub fn clamp(self, min: Self, max: Self) -> (r: Self)
        ensures
            r == ({
                let raised = if tick_diff(self.spec_value(), min.spec_value()) < 0 {
                    min
                } else {
                    self
                };
                if tick_diff(raised.spec_value(), max.spec_value()) > 0 {
                    max
                } else {
                    raised
                }
            }),
    {
        let mut result = self;
        if result.diff(&min) < 0 {
            result = min;
        }
        if result.diff(&max) > 0 {
            result = max;
        }
        result
    }

    /// Ticks compare by the sign of their distance, and within half the
    /// circle the distance is antisymmetric, so `a < b` exactly when
    /// `b > a`.
    pub proof fn lemma_order_is_sign_of_diff(a: ServerTick, b: ServerTick)
        requires
            a.wf(),
            b.wf(),
        ensures
            a.partial_cmp_spec(&b) == Some(Ordering::Less) <==> tick_diff(
                a.spec_value(),
                b.spec_value(),
            ) < 0,
            a.partial_cmp_spec(&b) == Some(Ordering::Equal) <==> a == b,
            -0x4000_0000 < tick_diff(a.spec_value(), b.spec_value()) ==> tick_diff(
                b.spec_value(),
                a.spec_value(),
            ) == -tick_diff(a.spec_value(), b.spec_value()),
            -0x4000_0000 < tick_diff(a.spec_value(), b.spec_value()) ==> (a.partial_cmp_spec(&b)
                == Some(Ordering::Less) <==> b.partial_cmp_spec(&a) == Some(Ordering::Greater)),
    {
    }

    /// Rebuilding from the current tick's own low 16 bits gives the
    /// current tick.
    pub proof fn lemma_from_mini_of_own_bits(now: ServerTick)
        requires
            now.wf(),
        ensures
            mini_delta(now.spec_value(), (now.spec_value() % 65536) as u16) == 0,
            tick_wrap(
                now.spec_value() as int - mini_delta(
                    now.spec_value(),
                    (now.spec_value() % 65536) as u16,
                ),
            ) == now.spec_value(),
    {
        let v = now.spec_value() as int;
        let q = v / 65536;
        vstd::arithmetic::div_mod::lemma_mod_multiples_basic(q, 65536);
    }

    /// Rebuilding from the current tick's own low 10 bits gives the
    /// current tick.
    pub proof fn lemma_from_batched_of_own_bits(now: ServerTick)
        requires
            now.wf(),
        ensures
            batched_delta(now.spec_value(), (now.spec_value() % 1024) as u16) == 0,
            tick_wrap(
                now.spec_value() as int - batched_delta(
                    now.spec_value(),
                    (now.spec_value() % 1024) as u16,
                ),
            ) == now.spec_value(),
    {
    }
}

impl AddSpecImpl<i32> for ServerTick {
    open spec fn obeys_add_spec() -> bool {
        true
    }

    open spec fn add_req(self, rhs: i32) -> bool {
        true
    }

    open spec fn add_spec(self, rhs: i32) -> ServerTick {
        ServerTick::spec_from_counter(tick_wrap(self.spec_value() as int + rhs as int))
    }
}

impl Add<i32> for ServerTick {
    type Output = ServerTick;

    /// Moves the tick forward by `rhs`, wrapping on the 31-bit circle.
    fn add(self, rhs: i32) -> (r: ServerTick) {
        ServerTick { value: wrap_sum(self.value, rhs) }
    }
}

impl SubSpecImpl<i32> for ServerTick {
    open spec fn obeys_sub_spec() -> bool {
        true
    }

    open spec fn sub_req(self, rhs: i32) -> bool {
        true
    }

    open spec fn sub_spec(self, rhs: i32) -> ServerTick {
        ServerTick::spec_from_counter(tick_wrap(self.spec_value() as int - rhs as int))
    }
}

impl Sub<i32> for ServerTick {
    type Output = ServerTick;

    /// Moves the tick back by `rhs`, wrapping on the 31-bit circle.
    fn sub(self, rhs: i32) -> (r: ServerTick) {
        ServerTick { value: wrap_difference(self.value, rhs) }
    }
}

impl vstd::std_specs::cmp::PartialOrdSpecImpl for ServerTick {
    open spec fn obeys_partial_cmp_spec() -> bool {
        true
    }

    open spec fn partial_cmp_spec(&self, other: &ServerTick) -> Option<Ordering> {
        Some(tick_order(self.spec_value(), other.spec_value()))
    }
}

impl PartialOrd for ServerTick {
    /// Orders two ticks by the sign of their distance.
    fn partial_cmp(&self, other: &Self) -> (r: Option<Ordering>) {
        let d: i32 = self.diff(other);
        if d < 0 {
            Some(Ordering::Less)
        } else if d == 0 {
            Some(Ordering::Equal)
        } else {
            Some(Ordering::Greater)
        }
    }
}

impl FromSpecImpl<u32> for ServerTick {
    open spec fn obeys_from_spec() -> bool {
        true
    }

    open spec fn from_spec(value: u32) -> ServerTick {
        ServerTick::spec_from_counter(value)
    }
}

impl From<u32> for ServerTick {
    fn from(value: u32) -> (r: ServerTick) {
        ServerTick { value: value % TICK_MODULUS }
    }
}

} // verus!

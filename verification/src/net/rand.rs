//! The linear congruential generator behind the cipher's keystream.

use crate::codec::{i32_to_u32, trunc_div, trunc_rem, unsigned32, wrap_i32, wrap_to_i32};
use vstd::prelude::*;

verus! {

/// A wrapped sum that fell below one is lifted by `0x7FFFFFFF`.
pub open spec fn lift_seed(t: i32) -> i32 {
    if t < 1 {
        (t + 0x7FFF_FFFF) as i32
    } else {
        t
    }
}

/// The seed that follows `s`: with `a = (s mod 0x1F31D) * 0x41A7` and
/// `b = (s / 0x1F31D) * 0xB14`, the wrapped sum `a - b + 0x7B`, lifted
/// when it is below one.
pub open spec fn next_seed(s: i32) -> i32 {
    lift_seed(
        wrap_i32(trunc_rem(s as int, 0x1F31D) * 0x41A7 - trunc_div(s as int, 0x1F31D) * 0xB14 + 0x7B),
    )
}

/// The seed after `n` steps from `s`.
pub open spec fn seed_after(s: i32, n: nat) -> i32
    decreases n,
{
    if n == 0 {
        s
    } else {
        next_seed(seed_after(s, (n - 1) as nat))
    }
}

/// The quotient that the key generator's variant uses in place of
/// `s / 0x1F31D`: the top 16 bits of the 64-bit product of the
/// sign-extended seed and `0x834E0B5F`.
pub open spec fn scaled_quotient(s: i32) -> int {
    let wide: int = if s < 0 {
        s as int + 0x1_0000_0000_0000_0000
    } else {
        s as int
    };
    ((wide * 0x834E0B5F) % 0x1_0000_0000_0000_0000) / 0x1_0000_0000_0000
}

/// The seed that follows `s` in the key generator's variant.
pub open spec fn next_encrypt_seed(s: i32) -> i32 {
    lift_seed(
        wrap_i32(trunc_rem(s as int, 0x1F31D) * 0x41A7 - scaled_quotient(s) * 0xB14 + 0x7B),
    )
}

fn remainder_toward_zero(s: i32) -> (r: i64)
    ensures
        r == trunc_rem(s as int, 0x1F31D),
        -0x1F31D < r < 0x1F31D,
{
    let wide: i64 = s as i64;
    if wide >= 0 {
        wide % 0x1F31D
    } else {
        -((-wide) % 0x1F31D)
    }
}

fn quotient_toward_zero(s: i32) -> (r: i64)
    ensures
        r == trunc_div(s as int, 0x1F31D),
        -16808 < r < 16808,
{
    let wide: i64 = s as i64;
    if wide >= 0 {
        wide / 0x1F31D
    } else {
        -((-wide) / 0x1F31D)
    }
}

fn lift(t: i32) -> (r: i32)
    ensures
        r == lift_seed(t),
{
    if t < 1 {
        t + 0x7FFF_FFFF
    } else {
        t
    }
}

pub struct VieRng {
    pub seed: i32,
}

impl VieRng {
    pub fn new(seed: i32) -> (r: Self)
        ensures
            r.seed == seed,
    {
        Self { seed }
    }

    /// Steps the generator and hands out the new seed's 32-bit pattern.
    pub fn next(&mut self) -> (r: u32)
        ensures
            final(self).seed == next_seed(old(self).seed),
            r == unsigned32(final(self).seed),
    {
        let a: i64 = remainder_toward_zero(self.seed) * 0x41A7;
        let b: i64 = quotient_toward_zero(self.seed) * 0xB14;
        let seed: i32 = lift(wrap_to_i32(a - b + 0x7B));
        self.seed = seed;
        i32_to_u32(seed)
    }

    /// Steps the generator in the key generator's variant and hands out
    /// the low 16 bits of the new seed.
    pub fn next_encrypt(&mut self) -> (r: u16)
        ensures
            final(self).seed == next_encrypt_seed(old(self).seed),
            r == unsigned32(final(self).seed) % 65536,
    {
        let old_seed: i32 = self.seed;
        let wide: u64 = if old_seed < 0 {
            (0xFFFF_FFFF_0000_0000u64 + (i32_to_u32(old_seed) as u64))
        } else {
            old_seed as u64
        };
        let quotient: u64 = wide.wrapping_mul(0x834E0B5F) / 0x1_0000_0000_0000;
        let a: i64 = remainder_toward_zero(old_seed) * 0x41A7;
        let b: i64 = (quotient as i64) * 0xB14;
        let seed: i32 = lift(wrap_to_i32(a - b + 0x7B));
        self.seed = seed;
        (i32_to_u32(seed) % 65536) as u16
    }
}

} // verus!

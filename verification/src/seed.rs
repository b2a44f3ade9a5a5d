//! The seed of a run, drawn from the clock.

use vstd::prelude::*;

verus! {

/// Seeds lie below this bound, the largest 16-bit signed integer.
pub const SEED_MODULUS: u128 = 32767;

/// The seed for a run that starts `millis` milliseconds after the epoch.
pub open spec fn seed_of(millis: u128) -> int {
    millis as int % SEED_MODULUS as int
}

/// Reduces the time since the epoch, in milliseconds, to the seed handed to
/// the shader. The seed is small enough to be held exactly by a single
/// precision float.
pub fn seed_from_millis(millis: u128) -> (seed: u16)
    ensures
        seed == seed_of(millis),
        seed < SEED_MODULUS,
{
    (millis % SEED_MODULUS) as u16
}

/// Runs that start a whole number of moduli apart share their seed.
pub proof fn seed_is_periodic(millis: u128, periods: nat)
    requires
        millis + periods * SEED_MODULUS <= u128::MAX,
    ensures
        seed_of((millis + periods * SEED_MODULUS) as u128) == seed_of(millis),
{
    let m: int = millis as int;
    let p: int = periods as int;
    assert((m + p * 32767) % 32767 == m % 32767) by (nonlinear_arith);
}

} // verus!

//! The large block's mass: a power of ten.
use vstd::arithmetic::power::{lemma_pow_increases, lemma_pow_positive, pow};
use vstd::prelude::*;

verus! {

/// Largest supported mass exponent. Up to here the mass, and every product
/// the collision formulas form from it and a velocity, stays within the
/// machine's integers.
pub const MAX_MASS_EXPONENT: u32 = 18;

/// Mass of the large block for a given exponent: ten to that power.
pub open spec fn mass_of(exponent: nat) -> int {
    pow(10, exponent)
}

/// Ten to the largest supported exponent.
pub open spec fn max_mass() -> int {
    1_000_000_000_000_000_000
}

/// Every supported exponent gives a mass between one and `max_mass()`.
pub proof fn lemma_mass_bounds(exponent: nat)
    requires
        exponent <= MAX_MASS_EXPONENT,
    ensures
        1 <= mass_of(exponent) <= max_mass(),
{
    lemma_pow_positive(10, exponent);
    lemma_pow_increases(10, exponent, 18);
    assert(pow(10, 18) == max_mass()) by {
        reveal_with_fuel(pow, 19);
    }
}

/// Calls `nannou::prelude::pow`, the exponentiation by squaring that nannou
/// re-exports from num-traits. Trusted: for a result that fits the type, the
/// call returns `base` raised to `exponent`, and no product on the way
/// exceeds that result.
#[verifier::external_body]
fn integer_power(base: u64, exponent: usize) -> (r: u64)
    requires
        pow(base as int, exponent as nat) <= u64::MAX,
    ensures
        r == pow(base as int, exponent as nat),
{
    nannou::prelude::pow(base, exponent)
}

/// The mass of the large block whose exponent is `exponent`, or `None` for
/// an exponent beyond `MAX_MASS_EXPONENT`.
pub fn large_block_mass(exponent: u32) -> (m: Option<u64>)
    ensures
        match m {
            Some(mass) => exponent <= MAX_MASS_EXPONENT && mass == mass_of(exponent as nat),
            None => exponent > MAX_MASS_EXPONENT,
        },
{
    if exponent > MAX_MASS_EXPONENT {
        return None;
    }
    proof {
        lemma_mass_bounds(exponent as nat);
    }
    Some(integer_power(10, exponent as usize))
}

} // verus!

//! Fixed-point rates with eighteen fractional digits.
//!
//! A rate is held as its count of atomic units: `10^18` atomics is `1.0`.
//! The arithmetic is done by `cosmwasm_std::Decimal`; each call below states
//! what that type computes on the atomics.
use vstd::prelude::*;

verus! {

/// Atomic units in one whole unit (`1.0`).
pub const DECIMAL_FRACTIONAL: u128 = 1_000_000_000_000_000_000;

/// The number of atomics in one whole unit, as a mathematical integer.
pub open spec fn unit() -> int {
    1_000_000_000_000_000_000
}

/// The smallest whole number at or above `x / unit()`.
pub open spec fn ceil_units(x: nat) -> nat {
    if x == 0 {
        0
    } else {
        (1 + (x - 1) / unit()) as nat
    }
}

/// Relies on `Decimal::from_atomics(amount, 0)`: the whole number `amount`
/// becomes `amount * 10^18` atomics, or an error when that does not fit.
#[verifier::external_body]
pub(crate) fn decimal_from_whole(amount: u128) -> (r: Option<u128>)
    ensures
        amount * unit() <= u128::MAX ==> r == Some((amount * unit()) as u128),
        amount * unit() > u128::MAX ==> r is None,
{
    cosmwasm_std::Decimal::from_atomics(amount, 0).ok().map(|d| d.atomics().u128())
}

/// Relies on `Decimal::checked_mul`: the product of two decimals, rounded
/// down to whole atomics, or an error when it exceeds the range.
#[verifier::external_body]
pub(crate) fn decimal_checked_mul(a: u128, b: u128) -> (r: Option<u128>)
    ensures
        (a * b) / unit() <= u128::MAX ==> r == Some(((a * b) / unit()) as u128),
        (a * b) / unit() > u128::MAX ==> r is None,
{
    cosmwasm_std::Decimal::raw(a).checked_mul(cosmwasm_std::Decimal::raw(b)).ok().map(
        |d| d.atomics().u128(),
    )
}

/// Relies on `Decimal::checked_sub`: the difference of the atomics, or an
/// error when it would be negative.
#[verifier::external_body]
pub(crate) fn decimal_checked_sub(a: u128, b: u128) -> (r: Option<u128>)
    ensures
        a >= b ==> r == Some((a - b) as u128),
        a < b ==> r is None,
{
    cosmwasm_std::Decimal::raw(a).checked_sub(cosmwasm_std::Decimal::raw(b)).ok().map(
        |d| d.atomics().u128(),
    )
}

/// Relies on `Decimal::to_uint_ceil`: the decimal rounded up to a whole number.
#[verifier::external_body]
pub(crate) fn decimal_to_uint_ceil(x: u128) -> (r: u128)
    ensures
        r == ceil_units(x as nat),
{
    cosmwasm_std::Decimal::raw(x).to_uint_ceil().u128()
}

/// Rounding up a value of at most `amount` whole units gives at most `amount`.
pub proof fn lemma_ceil_at_most(x: nat, amount: nat)
    requires
        x <= amount * unit(),
    ensures
        ceil_units(x) <= amount,
{
    if x > 0 {
        let u = unit();
        assert((x - 1) / u < amount) by {
            assert(x - 1 < amount * u);
            vstd::arithmetic::div_mod::lemma_div_is_ordered((x - 1) as int, (amount * u - 1) as int, u);
            assert((amount * u - 1) / u < amount) by (nonlinear_arith)
                requires
                    u > 0,
                    amount * u >= 1,
            ;
        }
    }
}

/// Rounding up never loses value: `ceil_units(x)` whole units cover `x` atomics.
pub proof fn lemma_ceil_covers(x: nat)
    ensures
        ceil_units(x) * unit() >= x,
{
    if x > 0 {
        let u = unit();
        let q = (x - 1) / u;
        vstd::arithmetic::div_mod::lemma_fundamental_div_mod((x - 1) as int, u);
        assert((x - 1) % u < u) by {
            vstd::arithmetic::div_mod::lemma_mod_bound((x - 1) as int, u);
        }
        assert((1 + q) * u == q * u + u) by (nonlinear_arith);
        assert(u * q == q * u) by (nonlinear_arith);
    }
}

} // verus!

//! The anti-concentration guard: no address outside a whitelist may hold
//! more than a set share of the total supply.
use vstd::prelude::*;
use crate::decimal::{unit, DECIMAL_FRACTIONAL};
use crate::error::ContractError;

verus! {

/// Relies on `Uint128 * Decimal` (`impl Mul<Decimal> for Uint128`): the
/// product rounded down, `x * d / 10^18`; it panics when that overflows.
#[verifier::external_body]
fn uint_mul_decimal(x: u128, d: u128) -> (r: u128)
    requires
        (x * d) / unit() <= u128::MAX,
    ensures
        r == (x * d) / unit(),
{
    (cosmwasm_std::Uint128::new(x) * cosmwasm_std::Decimal::raw(d)).u128()
}

/// The guard's settings.
#[derive(Debug, Clone, PartialEq, Eq)]
pub struct WhaleInfo {
    /// The share of the total supply one address may hold, in atomics
    /// (`10^18` is all of it).
    pub threshold: u128,
    /// Addresses the limit does not apply to.
    pub whitelist: Vec<String>,
    /// Who may change these settings.
    pub admin: String,
}

impl WhaleInfo {
    pub open spec fn allows(&self, addr: Seq<char>) -> bool {
        exists|i: int| 0 <= i < self.whitelist@.len() && #[trigger] self.whitelist@[i]@ == addr
    }

    /// The most a non-whitelisted address may hold.
    pub open spec fn max_allowed(&self, total_supply: u128) -> int {
        (total_supply * self.threshold) / unit()
    }

    pub fn is_allowed(&self, addr: &String) -> (r: bool)
        ensures
            r == self.allows(addr@),
    {
        let mut i: usize = 0;
        while i < self.whitelist.len()
            invariant
                i <= self.whitelist@.len(),
                forall|j: int| 0 <= j < i ==> self.whitelist@[j]@ != addr@,
            decreases self.whitelist@.len() - i,
        {
            if self.whitelist[i] == *addr {
                assert(self.whitelist@[i as int]@ == addr@);
                return true;
            }
            i = i + 1;
        }
        false
    }

    /// Valid when the threshold is at most one.
    pub fn validate(&self) -> (r: Result<(), ContractError>)
        ensures
            self.threshold <= unit() ==> r is Ok,
            self.threshold > unit() ==> r == Err::<(), ContractError>(
                ContractError::InvalidWhaleThreshold,
            ),
    {
        if self.threshold > DECIMAL_FRACTIONAL {
            Err(ContractError::InvalidWhaleThreshold)
        } else {
            Ok(())
        }
    }

    /// Fails when `addr`, not whitelisted, would hold `amount` while that is
    /// more than its share of `total_supply`.
    pub fn assert_no_whale(&self, total_supply: u128, addr: &String, amount: u128) -> (r: Result<
        (),
        ContractError,
    >)
        requires
            self.max_allowed(total_supply) <= u128::MAX,
        ensures
            (self.allows(addr@) || amount <= self.max_allowed(total_supply)) ==> r is Ok,
            !self.allows(addr@) && amount > self.max_allowed(total_supply) ==> r == Err::<
                (),
                ContractError,
            >(ContractError::TooManyTokens),
    {
        if self.is_allowed(addr) {
            return Ok(());
        }
        let max_allowed = uint_mul_decimal(total_supply, self.threshold);
        if amount > max_allowed {
            return Err(ContractError::TooManyTokens);
        }
        Ok(())
    }
}

/// Replaces the guard's settings. The new settings must be valid, and only
/// the current administrator may replace them.
pub fn execute_set_whale_info(current: &mut WhaleInfo, sender: &String, whale_info: WhaleInfo) -> (r:
    Result<(), ContractError>)
    ensures
        whale_info.threshold > unit() ==> r == Err::<(), ContractError>(
            ContractError::InvalidWhaleThreshold,
        ) && *final(current) == *old(current),
        whale_info.threshold <= unit() && old(current).admin@ != sender@ ==> r == Err::<
            (),
            ContractError,
        >(ContractError::Unauthorized) && *final(current) == *old(current),
        whale_info.threshold <= unit() && old(current).admin@ == sender@ ==> r is Ok
            && *final(current) == whale_info,
{
    whale_info.validate()?;
    if *sender != current.admin {
        return Err(ContractError::Unauthorized);
    }
    *current = whale_info;
    Ok(())
}

/// Hands the guard's administration to `admin`. Only the current
/// administrator may do so.
pub fn execute_set_whale_admin(current: &mut WhaleInfo, sender: &String, admin: String) -> (r:
    Result<(), ContractError>)
    ensures
        old(current).admin@ != sender@ ==> r == Err::<(), ContractError>(
            ContractError::Unauthorized,
        ) && *final(current) == *old(current),
        old(current).admin@ == sender@ ==> r is Ok && final(current).admin == admin
            && final(current).threshold == old(current).threshold
            && final(current).whitelist == old(current).whitelist,
{
    if *sender != current.admin {
        return Err(ContractError::Unauthorized);
    }
    current.admin = admin;
    Ok(())
}

} // verus!

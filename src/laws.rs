//! Properties that hold across the library's operations.
use vstd::prelude::*;
use crate::allowances::{no_allowance, Expiration};
use crate::contract::{
    decrease_allowance_post, increase_allowance_post, send_from_post, send_post,
    transfer_from_post, transfer_post, CodeIds, Env, Response, State,
};
use crate::decimal::{ceil_units, lemma_ceil_at_most, lemma_ceil_covers, unit};
use crate::error::ContractError;
use crate::tax::{split_at_rate, TaxInfo};

verus! {

/// Splitting an amount at any rate in `[0, 1]` succeeds whenever the amount
/// fits as a decimal; the net and tax parts add up to the amount exactly,
/// and the tax never exceeds what the rate implies (`tax <= amount * rate`).
pub proof fn law_split_conserves(amount: u128, rate: nat)
    requires
        rate <= unit(),
        amount * unit() <= u128::MAX,
    ensures
        split_at_rate(amount, rate) is Ok,
        split_at_rate(amount, rate)->Ok_0.0 + split_at_rate(amount, rate)->Ok_0.1 == amount,
        split_at_rate(amount, rate)->Ok_0.1 <= amount,
        split_at_rate(amount, rate)->Ok_0.1 * unit() <= amount * rate,
{
    let a = amount as nat;
    assert(a * rate <= a * unit()) by (nonlinear_arith)
        requires
            rate <= unit(),
    ;
    let x = (a * unit() - a * rate) as nat;
    lemma_ceil_at_most(x, a);
    lemma_ceil_covers(x);
    let net = ceil_units(x);
    let tax = (a - net) as nat;
    assert(tax * unit() == a * unit() - net * unit()) by (nonlinear_arith)
        requires
            tax == a - net,
    ;
}

/// Under a valid rule, a transfer whose amount fits as a decimal always
/// splits, and its net and tax parts add up to the amount.
pub proof fn law_rule_split_conserves(
    rule: TaxInfo,
    payer_code: Option<u64>,
    recipient: Seq<char>,
    recipient_code: Option<u64>,
    amount: u128,
)
    requires
        rule.valid(),
        amount * unit() <= u128::MAX,
    ensures
        rule.split(payer_code, recipient, recipient_code, amount) is Ok,
        rule.split(payer_code, recipient, recipient_code, amount)->Ok_0.0 + rule.split(
            payer_code,
            recipient,
            recipient_code,
            amount,
        )->Ok_0.1 == amount,
{
    if rule.taxes(payer_code, recipient, recipient_code) {
        law_split_conserves(amount, rule.src_cond.rate_for(payer_code));
    }
}

/// A direct transfer, whether it succeeds or fails, leaves the sum of all
/// balances and the total supply as they were; the tax held by the
/// contract counts toward the sum.
pub proof fn law_transfer_keeps_supply(
    prev: State,
    next: State,
    env: Env,
    sender: String,
    recipient: String,
    amount: u128,
    codes: CodeIds,
    r: Result<Response, ContractError>,
)
    requires
        prev.wf(),
        transfer_post(prev, next, env, sender, recipient, amount, codes, r),
    ensures
        next.balances.supply() == prev.balances.supply(),
        next.token.total_supply == prev.token.total_supply,
{
}

/// A delegated transfer leaves the sum of all balances and the total supply
/// as they were.
pub proof fn law_transfer_from_keeps_supply(
    prev: State,
    next: State,
    env: Env,
    sender: String,
    owner: String,
    recipient: String,
    amount: u128,
    codes: CodeIds,
    r: Result<Response, ContractError>,
)
    requires
        prev.wf(),
        transfer_from_post(prev, next, env, sender, owner, recipient, amount, codes, r),
    ensures
        next.balances.supply() == prev.balances.supply(),
        next.token.total_supply == prev.token.total_supply,
{
}

/// A send leaves the sum of all balances and the total supply as they were.
pub proof fn law_send_keeps_supply(
    prev: State,
    next: State,
    env: Env,
    sender: String,
    contract: String,
    amount: u128,
    msg: Vec<u8>,
    codes: CodeIds,
    r: Result<Response, ContractError>,
)
    requires
        prev.wf(),
        send_post(prev, next, env, sender, contract, amount, msg, codes, r),
    ensures
        next.balances.supply() == prev.balances.supply(),
        next.token.total_supply == prev.token.total_supply,
{
}

/// A delegated send leaves the sum of all balances and the total supply as
/// they were.
pub proof fn law_send_from_keeps_supply(
    prev: State,
    next: State,
    env: Env,
    sender: String,
    owner: String,
    contract: String,
    amount: u128,
    msg: Vec<u8>,
    codes: CodeIds,
    r: Result<Response, ContractError>,
)
    requires
        prev.wf(),
        send_from_post(prev, next, env, sender, owner, contract, amount, msg, codes, r),
    ensures
        next.balances.supply() == prev.balances.supply(),
        next.token.total_supply == prev.token.total_supply,
{
}

/// Decreasing an allowance by at least its amount succeeds and leaves it
/// reading as zero, never expiring.
pub proof fn law_decrease_past_zero_clears(
    prev: State,
    next: State,
    env: Env,
    owner: String,
    spender: String,
    amount: u128,
    expires: Option<Expiration>,
    r: Result<Response, ContractError>,
)
    requires
        prev.wf(),
        owner@ != spender@,
        amount >= prev.allowances.current(owner@, spender@).allowance,
        decrease_allowance_post(prev, next, env, owner, spender, amount, expires, r),
    ensures
        r is Ok,
        next.allowances.current(owner@, spender@) == no_allowance(),
{
}

/// Raising or lowering an allowance from an address to itself fails with
/// `CannotSetOwnAccount`, whatever the amount, and changes nothing.
pub proof fn law_no_self_allowance(
    prev: State,
    env: Env,
    owner: String,
    spender: String,
    amount: u128,
    expires: Option<Expiration>,
    after_increase: State,
    increased: Result<Response, ContractError>,
    after_decrease: State,
    decreased: Result<Response, ContractError>,
)
    requires
        owner@ == spender@,
        increase_allowance_post(prev, after_increase, env, owner, spender, amount, expires, increased),
        decrease_allowance_post(prev, after_decrease, env, owner, spender, amount, expires, decreased),
    ensures
        increased == Err::<Response, ContractError>(ContractError::CannotSetOwnAccount),
        decreased == Err::<Response, ContractError>(ContractError::CannotSetOwnAccount),
        after_increase == prev,
        after_decrease == prev,
{
}

/// An allowance whose expiration has passed cannot be spent by a delegated
/// transfer: it fails with `Expired` and changes nothing.
pub proof fn law_expired_allowance_transfer_from(
    prev: State,
    next: State,
    env: Env,
    sender: String,
    owner: String,
    recipient: String,
    amount: u128,
    codes: CodeIds,
    r: Result<Response, ContractError>,
)
    requires
        prev.allowances.entry(owner@, sender@) is Some,
        prev.allowances.entry(owner@, sender@)->0.expires.expired_at(env.block),
        transfer_from_post(prev, next, env, sender, owner, recipient, amount, codes, r),
    ensures
        r == Err::<Response, ContractError>(ContractError::Expired),
        next == prev,
{
}

/// An allowance whose expiration has passed cannot be spent by a delegated
/// send: it fails with `Expired` and changes nothing.
pub proof fn law_expired_allowance_send_from(
    prev: State,
    next: State,
    env: Env,
    sender: String,
    owner: String,
    contract: String,
    amount: u128,
    msg: Vec<u8>,
    codes: CodeIds,
    r: Result<Response, ContractError>,
)
    requires
        prev.allowances.entry(owner@, sender@) is Some,
        prev.allowances.entry(owner@, sender@)->0.expires.expired_at(env.block),
        send_from_post(prev, next, env, sender, owner, contract, amount, msg, codes, r),
    ensures
        r == Err::<Response, ContractError>(ContractError::Expired),
        next == prev,
{
}

/// Raising an allowance with an expiration that has already passed fails
/// with `InvalidExpiration` and changes nothing.
pub proof fn law_past_expiration_on_increase(
    prev: State,
    next: State,
    env: Env,
    owner: String,
    spender: String,
    amount: u128,
    expires: Expiration,
    r: Result<Response, ContractError>,
)
    requires
        owner@ != spender@,
        expires.expired_at(env.block),
        increase_allowance_post(prev, next, env, owner, spender, amount, Some(expires), r),
    ensures
        r == Err::<Response, ContractError>(ContractError::InvalidExpiration),
        next == prev,
{
}

/// Lowering an allowance (by less than its amount) with an expiration that
/// has already passed fails with `InvalidExpiration` and changes nothing.
pub proof fn law_past_expiration_on_decrease(
    prev: State,
    next: State,
    env: Env,
    owner: String,
    spender: String,
    amount: u128,
    expires: Expiration,
    r: Result<Response, ContractError>,
)
    requires
        owner@ != spender@,
        amount < prev.allowances.current(owner@, spender@).allowance,
        expires.expired_at(env.block),
        decrease_allowance_post(prev, next, env, owner, spender, amount, Some(expires), r),
    ensures
        r == Err::<Response, ContractError>(ContractError::InvalidExpiration),
        next == prev,
{
}

/// A delegated transfer of more than a live allowance fails with `Overflow`
/// and leaves the allowance, and everything else, as it was.
pub proof fn law_overspend_rejected(
    prev: State,
    next: State,
    env: Env,
    sender: String,
    owner: String,
    recipient: String,
    amount: u128,
    codes: CodeIds,
    r: Result<Response, ContractError>,
)
    requires
        prev.allowances.entry(owner@, sender@) is Some,
        !prev.allowances.entry(owner@, sender@)->0.expires.expired_at(env.block),
        amount > prev.allowances.entry(owner@, sender@)->0.allowance,
        transfer_from_post(prev, next, env, sender, owner, recipient, amount, codes, r),
    ensures
        r == Err::<Response, ContractError>(ContractError::Overflow),
        next == prev,
{
}

} // verus!

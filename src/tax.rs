//! The tax policy: conditions, per-category rules and the tax map.
//!
//! A condition answers whether an address is taxed and at which rate. The
//! only condition that depends on more than its own fields is the one on a
//! contract's code identifier: the host looks that identifier up and hands it
//! in as `Option<u64>` (`None` when the address is not a contract).
use vstd::prelude::*;
use crate::decimal::{
    ceil_units, decimal_checked_mul, decimal_checked_sub, decimal_from_whole,
    decimal_to_uint_ceil, unit, DECIMAL_FRACTIONAL,
};
use crate::error::ContractError;

verus! {

/// The outcome of splitting `amount` at `rate` (in atomics): the net part is
/// `amount * (1 - rate)` rounded up, the tax part what remains.
pub open spec fn split_at_rate(amount: u128, rate: nat) -> Result<(u128, u128), ContractError> {
    if amount * unit() > u128::MAX {
        Err(ContractError::InvalidAmount)
    } else if amount * rate > amount * unit() {
        Err(ContractError::NegativeTax)
    } else {
        let net = ceil_units((amount * unit() - amount * rate) as nat);
        Ok((net as u128, (amount - net) as u128))
    }
}

/// A condition that never taxes.
#[derive(Debug, Clone, Copy, PartialEq, Eq, Structural)]
pub struct TaxNeverCondition {}

impl TaxNeverCondition {
    /// A never-condition carries no rate and is always valid.
    pub fn validate(&self) -> (r: bool)
        ensures
            r,
    {
        true
    }
}

/// A condition that taxes every address at one rate.
#[derive(Debug, Clone, Copy, PartialEq, Eq, Structural)]
pub struct TaxAlwaysCondition {
    /// The rate in atomics (`10^18` is `1.0`).
    pub tax_rate: u128,
}

impl TaxAlwaysCondition {
    /// Valid when the rate lies in `[0, 1]`.
    pub fn validate(&self) -> (r: bool)
        ensures
            r == (self.tax_rate <= unit()),
    {
        self.tax_rate <= DECIMAL_FRACTIONAL
    }
}

/// A condition that taxes contracts whose code identifier is listed.
#[derive(Debug, Clone, PartialEq, Eq)]
pub struct TaxContractCodeCondition {
    /// The code identifiers that are taxed.
    pub code_ids: Vec<u64>,
    /// The rate in atomics (`10^18` is `1.0`).
    pub tax_rate: u128,
}

impl TaxContractCodeCondition {
    /// Valid when the rate lies in `[0, 1]`.
    pub fn validate(&self) -> (r: bool)
        ensures
            r == (self.tax_rate <= unit()),
    {
        self.tax_rate <= DECIMAL_FRACTIONAL
    }

    /// Whether `code_id` names a listed code.
    fn lists(&self, code_id: Option<u64>) -> (r: bool)
        ensures
            r == (code_id is Some && self.code_ids@.contains(code_id->0)),
    {
        match code_id {
            None => false,
            Some(c) => {
                let mut i: usize = 0;
                while i < self.code_ids.len()
                    invariant
                        i <= self.code_ids.len(),
                        code_id == Some(c),
                        forall|j: int| 0 <= j < i ==> self.code_ids@[j] != c,
                    decreases self.code_ids.len() - i,
                {
                    if self.code_ids[i] == c {
                        assert(self.code_ids@[i as int] == c);
                        return true;
                    }
                    i = i + 1;
                }
                false
            },
        }
    }
}

/// When an address is taxed: never, always, or when it is a listed contract.
#[derive(Debug, Clone, PartialEq, Eq)]
pub enum TaxCondition {
    Never(TaxNeverCondition),
    Always(TaxAlwaysCondition),
    ContractCode(TaxContractCodeCondition),
}

impl TaxCondition {
    /// Whether an address whose code identifier is `code_id` is taxed.
    pub open spec fn taxes(self, code_id: Option<u64>) -> bool {
        match self {
            TaxCondition::Never(_) => false,
            TaxCondition::Always(_) => true,
            TaxCondition::ContractCode(c) => code_id is Some && c.code_ids@.contains(
                code_id->0,
            ),
        }
    }

    /// The rate, in atomics, at which such an address is taxed.
    pub open spec fn rate_for(self, code_id: Option<u64>) -> nat {
        match self {
            TaxCondition::Never(_) => 0,
            TaxCondition::Always(c) => c.tax_rate as nat,
            TaxCondition::ContractCode(c) => if self.taxes(code_id) {
                c.tax_rate as nat
            } else {
                0
            },
        }
    }

    /// The configured rate lies in `[0, 1]`.
    pub open spec fn valid(self) -> bool {
        match self {
            TaxCondition::Never(_) => true,
            TaxCondition::Always(c) => c.tax_rate <= unit(),
            TaxCondition::ContractCode(c) => c.tax_rate <= unit(),
        }
    }

    pub fn is_taxed(&self, code_id: Option<u64>) -> (r: bool)
        ensures
            r == self.taxes(code_id),
    {
        match self {
            TaxCondition::Never(_) => false,
            TaxCondition::Always(_) => true,
            TaxCondition::ContractCode(c) => c.lists(code_id),
        }
    }

    pub fn tax_rate(&self, code_id: Option<u64>) -> (r: u128)
        ensures
            r == self.rate_for(code_id),
    {
        match self {
            TaxCondition::Never(_) => 0,
            TaxCondition::Always(c) => c.tax_rate,
            TaxCondition::ContractCode(c) => if c.lists(code_id) {
                c.tax_rate
            } else {
                0
            },
        }
    }

    /// Splits `amount` into `(net, tax)` at this condition's rate for the
    /// address whose code identifier is `code_id`.
    pub fn tax_deduction(&self, code_id: Option<u64>, amount: u128) -> (r: Result<
        (u128, u128),
        ContractError,
    >)
        ensures
            r == split_at_rate(amount, self.rate_for(code_id)),
    {
        let rate = self.tax_rate(code_id);
        let gross = match decimal_from_whole(amount) {
            Some(g) => g,
            None => return Err(ContractError::InvalidAmount),
        };
        proof {
            lemma_scaled_product(rate as int, amount as int);
        }
        let tax = match decimal_checked_mul(rate, gross) {
            Some(t) => t,
            None => return Err(ContractError::NegativeTax),
        };
        let net_amount = match decimal_checked_sub(gross, tax) {
            Some(n) => n,
            None => return Err(ContractError::NegativeTax),
        };
        let net_out = decimal_to_uint_ceil(net_amount);
        proof {
            crate::decimal::lemma_ceil_at_most(net_amount as nat, amount as nat);
        }
        let net_tax = match amount.checked_sub(net_out) {
            Some(t) => t,
            None => return Err(ContractError::NegativeTax),
        };
        Ok((net_out, net_tax))
    }

    /// The tax part of `amount`, or zero when it cannot be computed.
    pub fn get_tax(&self, code_id: Option<u64>, amount: u128) -> (r: u128)
        ensures
            r == match split_at_rate(amount, self.rate_for(code_id)) {
                Ok(p) => p.1,
                Err(_) => 0,
            },
    {
        match self.tax_deduction(code_id, amount) {
            Ok((_, tax)) => tax,
            Err(_) => 0,
        }
    }

    /// The net part of `amount`, or zero when it cannot be computed.
    pub fn get_net(&self, code_id: Option<u64>, amount: u128) -> (r: u128)
        ensures
            r == match split_at_rate(amount, self.rate_for(code_id)) {
                Ok(p) => p.0,
                Err(_) => 0,
            },
    {
        match self.tax_deduction(code_id, amount) {
            Ok((net, _)) => net,
            Err(_) => 0,
        }
    }

    pub fn validate(&self) -> (r: bool)
        ensures
            r == self.valid(),
    {
        match self {
            TaxCondition::Never(x) => x.validate(),
            TaxCondition::Always(x) => x.validate(),
            TaxCondition::ContractCode(x) => x.validate(),
        }
    }
}

/// The tax rule of one transfer category.
#[derive(Debug, Clone, PartialEq, Eq)]
pub struct TaxInfo {
    /// Evaluated on the paying address.
    pub src_cond: TaxCondition,
    /// Evaluated on the recipient.
    pub dst_cond: TaxCondition,
    /// Where the tax goes; a transfer to it is never taxed.
    pub proceeds: String,
}

impl TaxInfo {
    pub open spec fn valid(self) -> bool {
        self.src_cond.valid() && self.dst_cond.valid()
    }

    /// Whether a transfer from a payer with code `payer_code` to `recipient`
    /// with code `recipient_code` is taxed under this rule.
    pub open spec fn taxes(
        self,
        payer_code: Option<u64>,
        recipient: Seq<char>,
        recipient_code: Option<u64>,
    ) -> bool {
        self.src_cond.taxes(payer_code) && self.dst_cond.taxes(recipient_code)
            && self.proceeds@ != recipient
    }

    /// The `(net, tax)` split of `amount` under this rule.
    pub open spec fn split(
        self,
        payer_code: Option<u64>,
        recipient: Seq<char>,
        recipient_code: Option<u64>,
        amount: u128,
    ) -> Result<(u128, u128), ContractError> {
        if self.taxes(payer_code, recipient, recipient_code) {
            split_at_rate(amount, self.src_cond.rate_for(payer_code))
        } else {
            Ok((amount, 0))
        }
    }

    /// The rule that never taxes, with an empty proceeds address.
    pub open spec fn is_untaxed(self) -> bool {
        &&& self.src_cond == TaxCondition::Never(TaxNeverCondition {})
        &&& self.dst_cond == TaxCondition::Never(TaxNeverCondition {})
        &&& self.proceeds@ == Seq::<char>::empty()
    }

    pub fn validate(&self) -> (r: bool)
        ensures
            r == self.valid(),
    {
        self.src_cond.validate() && self.dst_cond.validate()
    }

    /// Splits `amount` into `(net, tax)` for a transfer from a payer whose
    /// code identifier is `payer_code` to `recipient`, whose code identifier
    /// is `recipient_code`. The rate is the source condition's.
    pub fn deduct_tax(
        &self,
        payer_code: Option<u64>,
        recipient: &String,
        recipient_code: Option<u64>,
        amount: u128,
    ) -> (r: Result<(u128, u128), ContractError>)
        ensures
            r == self.split(payer_code, recipient@, recipient_code, amount),
    {
        let is_taxed = self.src_cond.is_taxed(payer_code) && self.dst_cond.is_taxed(recipient_code)
            && self.proceeds != *recipient;
        if is_taxed {
            self.src_cond.tax_deduction(payer_code, amount)
        } else {
            Ok((amount, 0))
        }
    }
}

impl Default for TaxInfo {
    fn default() -> (r: Self)
        ensures
            r.is_untaxed(),
    {
        TaxInfo {
            src_cond: TaxCondition::Never(TaxNeverCondition {}),
            dst_cond: TaxCondition::Never(TaxNeverCondition {}),
            proceeds: String::new(),
        }
    }
}

/// The four tax rules and the address allowed to change them.
#[derive(Debug, Clone, PartialEq, Eq)]
pub struct TaxMap {
    pub on_transfer: TaxInfo,
    pub on_transfer_from: TaxInfo,
    pub on_send: TaxInfo,
    pub on_send_from: TaxInfo,
    pub admin: String,
}

impl TaxMap {
    pub open spec fn valid(self) -> bool {
        &&& self.on_transfer.valid()
        &&& self.on_transfer_from.valid()
        &&& self.on_send.valid()
        &&& self.on_send_from.valid()
    }

    /// All four rules untaxed.
    pub open spec fn is_untaxed(self) -> bool {
        &&& self.on_transfer.is_untaxed()
        &&& self.on_transfer_from.is_untaxed()
        &&& self.on_send.is_untaxed()
        &&& self.on_send_from.is_untaxed()
    }

    pub fn validate(&self) -> (r: Result<(), ContractError>)
        ensures
            self.valid() ==> r is Ok,
            !self.valid() ==> r == Err::<(), ContractError>(ContractError::InvalidTaxMap),
    {
        if self.on_transfer.validate() && self.on_transfer_from.validate()
            && self.on_send.validate() && self.on_send_from.validate() {
            Ok(())
        } else {
            Err(ContractError::InvalidTaxMap)
        }
    }
}

impl Default for TaxMap {
    fn default() -> (r: Self)
        ensures
            r.is_untaxed(),
            r.admin@ == Seq::<char>::empty(),
    {
        TaxMap {
            on_transfer: TaxInfo::default(),
            on_transfer_from: TaxInfo::default(),
            on_send: TaxInfo::default(),
            on_send_from: TaxInfo::default(),
            admin: String::new(),
        }
    }
}

/// `rate * (amount * 10^18) / 10^18` is `rate * amount`.
proof fn lemma_scaled_product(rate: int, amount: int)
    requires
        rate >= 0,
        amount >= 0,
    ensures
        (rate * (amount * unit())) / unit() == amount * rate,
{
    assert(rate * amount == amount * rate) by (nonlinear_arith);
    assert(rate * (amount * unit()) == (rate * amount) * unit()) by (nonlinear_arith);
    vstd::arithmetic::div_mod::lemma_div_by_multiple(rate * amount, unit());
}

} // verus!

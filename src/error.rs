//! The errors of the token's operations.
use vstd::prelude::*;

verus! {

/// Why an operation was rejected. Every error leaves the state unchanged.
#[derive(Debug, Clone, Copy, PartialEq, Eq, Structural)]
pub enum ContractError {
    /// An administrative action by someone who is not the administrator,
    /// or a privileged action without the role it needs.
    Unauthorized,
    /// An allowance with the owner as its own spender.
    CannotSetOwnAccount,
    /// An expiration that has already passed when the allowance is written.
    InvalidExpiration,
    /// An allowance that has expired when it is spent.
    Expired,
    /// A spend with no allowance entry.
    NoAllowance,
    /// A debit larger than the balance.
    InsufficientFunds,
    /// An allowance smaller than the amount deducted from it.
    Overflow,
    /// A tax map with a rate outside `[0, 1]`.
    InvalidTaxMap,
    /// An amount too large to be taken as a decimal.
    InvalidAmount,
    /// A tax larger than the amount it is taken from.
    NegativeTax,
    /// Two initial balances for the same address.
    DuplicateInitialBalanceAddresses,
    /// Initial balances whose sum exceeds the supply cap, or does not fit.
    InitialSupplyOverCap,
    /// A mint that would exceed the supply cap.
    CannotExceedCap,
    /// A logo over the size limit.
    LogoTooBig,
    /// A PNG logo without the PNG header.
    InvalidPngHeader,
    /// An SVG logo without an XML preamble.
    InvalidXmlPreamble,
    /// A holding above the share of the supply one address may have.
    TooManyTokens,
    /// A whale threshold above one.
    InvalidWhaleThreshold,
    /// No logo to download.
    NotFound,
    /// A stored contract version that does not parse.
    InvalidVersion,
    /// A stored contract that no known migration starts from.
    UnknownMigrationPath,
}

} // verus!

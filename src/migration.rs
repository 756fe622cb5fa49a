//! Which stored contracts this token can be upgraded from, and the version
//! each is normalised to before the upgrade.
use vstd::prelude::*;
use crate::error::ContractError;

verus! {

/// The package name this contract records.
pub const CONTRACT_NAME: &'static str = "crates.io:cw20-base";

/// The package name recorded by Terraport tokens.
pub const CONTRACT_NAME_TERRAPORT: &'static str = "crates.io:terraport-token";

/// The package name recorded by Terraswap tokens.
pub const CONTRACT_NAME_TERRASWAP: &'static str = "crates.io:terraswap-token";

/// The version every known upgrade path is normalised to.
pub const NORMALISED_VERSION: &'static str = "1.1.0";

/// The contract name and version a contract recorded in its storage.
#[derive(Debug, Clone, PartialEq, Eq)]
pub struct ContractVersion {
    pub contract: String,
    pub version: String,
}

/// A version string read as semantic version: major, minor, patch, and
/// whether it has no pre-release part. `None` when it does not parse.
pub uninterp spec fn semver_of(s: Seq<char>) -> Option<(u64, u64, u64, bool)>;

/// Relies on `semver::Version::from_str` to parse the string, and on
/// `Prerelease::is_empty` to tell whether the parsed version is a
/// pre-release.
#[verifier::external_body]
fn parse_version(s: &String) -> (r: Option<(u64, u64, u64, bool)>)
    ensures
        r == semver_of(s@),
{
    match <semver::Version as std::str::FromStr>::from_str(s) {
        Ok(v) => Some((v.major, v.minor, v.patch, v.pre.is_empty())),
        Err(_) => None,
    }
}

/// Whether `s` holds exactly the text `lit`.
fn is_text(s: &String, lit: &str) -> (r: bool)
    ensures
        r == (s@ == lit@),
{
    *s == lit.to_owned()
}

/// The version is at least `1.1.0` in semantic-version order: a higher
/// release, or `1.1.0` itself without a pre-release part.
pub open spec fn at_least_1_1_0(v: (u64, u64, u64, bool)) -> bool {
    let (major, minor, patch, release) = v;
    major > 1 || (major == 1 && minor > 1) || (major == 1 && minor == 1 && (patch > 0 || release))
}

pub open spec fn recorded(v: ContractVersion, contract: &str, version: &str) -> bool {
    v.contract@ == contract@ && v.version@ == version@
}

pub fn is_terraport_token_v0(v: &ContractVersion) -> (r: bool)
    ensures
        r == recorded(*v, CONTRACT_NAME_TERRAPORT, "0.0.0"),
{
    is_text(&v.contract, CONTRACT_NAME_TERRAPORT) && is_text(&v.version, "0.0.0")
}

pub fn is_terraswap_token_v0(v: &ContractVersion) -> (r: bool)
    ensures
        r == recorded(*v, CONTRACT_NAME_TERRASWAP, "0.0.0"),
{
    is_text(&v.contract, CONTRACT_NAME_TERRASWAP) && is_text(&v.version, "0.0.0")
}

pub fn is_cw_base_v0(v: &ContractVersion) -> (r: bool)
    ensures
        r == recorded(*v, CONTRACT_NAME, "0.0.0"),
{
    is_text(&v.contract, CONTRACT_NAME) && is_text(&v.version, "0.0.0")
}

pub fn is_cw_base_1_0_1(v: &ContractVersion) -> (r: bool)
    ensures
        r == recorded(*v, CONTRACT_NAME, "1.0.1"),
{
    is_text(&v.contract, CONTRACT_NAME) && is_text(&v.version, "1.0.1")
}

/// Given the parsed version of a stored contract named `contract`, whether
/// it is a taxed release: this contract's name at version `1.1.0` or later.
pub fn is_taxed_release(contract: &String, parsed: Option<(u64, u64, u64, bool)>) -> (r: Result<
    bool,
    ContractError,
>)
    ensures
        r == match parsed {
            None => Err(ContractError::InvalidVersion),
            Some(p) => Ok(contract@ == CONTRACT_NAME@ && at_least_1_1_0(p)),
        },
{
    match parsed {
        None => Err(ContractError::InvalidVersion),
        Some((major, minor, patch, release)) => {
            let recent = major > 1 || (major == 1 && minor > 1) || (major == 1 && minor == 1 && (
            patch > 0 || release));
            Ok(is_text(contract, CONTRACT_NAME) && recent)
        },
    }
}

/// Whether the stored contract is a taxed release (see `is_taxed_release`);
/// fails when its version does not parse.
pub fn is_cw20_taxed_v0(v: &ContractVersion) -> (r: Result<bool, ContractError>)
    ensures
        r == match semver_of(v.version@) {
            None => Err(ContractError::InvalidVersion),
            Some(p) => Ok(v.contract@ == CONTRACT_NAME@ && at_least_1_1_0(p)),
        },
{
    let parsed = parse_version(&v.version);
    is_taxed_release(&v.contract, parsed)
}

/// The version to record before an upgrade from the stored contract `v`:
/// `Some` to replace it, `None` to keep it. Fails on any other contract.
pub fn ensure_known_upgrade_path(v: &ContractVersion) -> (r: Result<
    Option<ContractVersion>,
    ContractError,
>)
    ensures
        recorded(*v, CONTRACT_NAME_TERRAPORT, "0.0.0") || recorded(
            *v,
            CONTRACT_NAME_TERRASWAP,
            "0.0.0",
        ) ==> r is Ok && r->Ok_0 is Some && recorded(r->Ok_0->0, CONTRACT_NAME, NORMALISED_VERSION),
        !recorded(*v, CONTRACT_NAME_TERRAPORT, "0.0.0") && !recorded(
            *v,
            CONTRACT_NAME_TERRASWAP,
            "0.0.0",
        ) ==> match semver_of(v.version@) {
            None => r == Err::<Option<ContractVersion>, ContractError>(
                ContractError::InvalidVersion,
            ),
            Some(p) => if v.contract@ == CONTRACT_NAME@ && at_least_1_1_0(p) {
                r == Ok::<Option<ContractVersion>, ContractError>(None)
            } else if recorded(*v, CONTRACT_NAME, "1.0.1") || recorded(*v, CONTRACT_NAME, "0.0.0") {
                r is Ok && r->Ok_0 is Some && recorded(r->Ok_0->0, CONTRACT_NAME, NORMALISED_VERSION)
            } else {
                r == Err::<Option<ContractVersion>, ContractError>(
                    ContractError::UnknownMigrationPath,
                )
            },
        },
{
    if is_terraport_token_v0(v) || is_terraswap_token_v0(v) {
        return Ok(Some(normalised()));
    }
    if is_cw20_taxed_v0(v)? {
        return Ok(None);
    }
    if is_cw_base_1_0_1(v) || is_cw_base_v0(v) {
        return Ok(Some(normalised()));
    }
    Err(ContractError::UnknownMigrationPath)
}

fn normalised() -> (r: ContractVersion)
    ensures
        recorded(r, CONTRACT_NAME, NORMALISED_VERSION),
{
    ContractVersion { contract: CONTRACT_NAME.to_owned(), version: NORMALISED_VERSION.to_owned() }
}

} // verus!

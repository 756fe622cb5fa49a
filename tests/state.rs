use cw20_taxed::error::ContractError;
use cw20_taxed::migration::{
    ensure_known_upgrade_path, is_cw20_taxed_v0, is_cw_base_1_0_1, is_cw_base_v0,
    is_taxed_release, is_terraport_token_v0, is_terraswap_token_v0, ContractVersion,
};

fn version(contract: &str, version: &str) -> ContractVersion {
    ContractVersion { contract: contract.to_string(), version: version.to_string() }
}

#[test]
fn test_is_terraport_token_v0() {
    assert_eq!(is_terraport_token_v0(&version("crates.io:cw20-base", "1.0.6")), false);
    assert_eq!(is_terraport_token_v0(&version("crates.io:cw20-base", "0.0.0")), false);
    assert_eq!(is_terraport_token_v0(&version("crates.io:terraport-token", "0.0.0")), true);
    assert_eq!(is_terraport_token_v0(&version("crates.io:terraport-token", "1.0.0")), false);
}

#[test]
fn test_is_cw20_base_1_0_1() {
    assert_eq!(is_cw_base_1_0_1(&version("crates.io:cw20-base", "1.0.6")), false);
    assert_eq!(is_cw_base_1_0_1(&version("crates.io:cw20-base", "1.0.1")), true);
    assert_eq!(is_cw_base_1_0_1(&version("crates.io:cw20-base", "1.0.0")), false);
}

#[test]
fn test_is_terraswap_token_v0() {
    assert_eq!(is_terraswap_token_v0(&version("crates.io:cw20-base", "1.0.6")), false);
    assert_eq!(is_terraswap_token_v0(&version("crates.io:cw20-base", "0.0.0")), false);
    assert_eq!(is_terraswap_token_v0(&version("crates.io:terraswap-token", "0.0.0")), true);
    assert_eq!(is_terraswap_token_v0(&version("crates.io:terraswap-token", "1.0.0")), false);
}

#[test]
fn cw_base_v0_is_recognised() {
    assert!(is_cw_base_v0(&version("crates.io:cw20-base", "0.0.0")));
    assert!(!is_cw_base_v0(&version("crates.io:cw20-base", "0.0.1")));
}

#[test]
fn taxed_release_goes_by_semantic_version() {
    let name = "crates.io:cw20-base".to_string();
    assert_eq!(is_taxed_release(&name, Some((1, 1, 0, true))), Ok(true));
    assert_eq!(is_taxed_release(&name, Some((1, 1, 0, false))), Ok(false));
    assert_eq!(is_taxed_release(&name, Some((1, 0, 9, true))), Ok(false));
    assert_eq!(is_taxed_release(&name, Some((2, 0, 0, false))), Ok(true));
    assert_eq!(is_taxed_release(&"other".to_string(), Some((2, 0, 0, true))), Ok(false));
    assert_eq!(is_taxed_release(&name, None), Err(ContractError::InvalidVersion));
}

#[test]
fn cw20_taxed_v0_parses_the_stored_version() {
    assert_eq!(is_cw20_taxed_v0(&version("crates.io:cw20-base", "1.1.0")), Ok(true));
    assert_eq!(is_cw20_taxed_v0(&version("crates.io:cw20-base", "1.1.0+taxed001")), Ok(true));
    assert_eq!(is_cw20_taxed_v0(&version("crates.io:cw20-base", "1.1.0-rc.1")), Ok(false));
    assert_eq!(is_cw20_taxed_v0(&version("crates.io:cw20-base", "1.0.6")), Ok(false));
    assert_eq!(is_cw20_taxed_v0(&version("crates.io:other", "1.2.0")), Ok(false));
    assert_eq!(
        is_cw20_taxed_v0(&version("crates.io:cw20-base", "one")),
        Err(ContractError::InvalidVersion)
    );
}

#[test]
fn known_upgrade_paths_are_normalised() {
    let normalised = Some(version("crates.io:cw20-base", "1.1.0"));
    assert_eq!(
        ensure_known_upgrade_path(&version("crates.io:terraport-token", "0.0.0")),
        Ok(normalised.clone())
    );
    assert_eq!(
        ensure_known_upgrade_path(&version("crates.io:terraswap-token", "0.0.0")),
        Ok(normalised.clone())
    );
    assert_eq!(ensure_known_upgrade_path(&version("crates.io:cw20-base", "1.1.0")), Ok(None));
    assert_eq!(
        ensure_known_upgrade_path(&version("crates.io:cw20-base", "1.0.1")),
        Ok(normalised.clone())
    );
    assert_eq!(
        ensure_known_upgrade_path(&version("crates.io:cw20-base", "0.0.0")),
        Ok(normalised)
    );
    assert_eq!(
        ensure_known_upgrade_path(&version("crates.io:cw20-base", "1.0.6")),
        Err(ContractError::UnknownMigrationPath)
    );
    assert_eq!(
        ensure_known_upgrade_path(&version("crates.io:terraport-token", "banana")),
        Err(ContractError::InvalidVersion)
    );
}

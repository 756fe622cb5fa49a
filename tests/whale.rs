use cw20_taxed::error::ContractError;
use cw20_taxed::whale::{execute_set_whale_admin, execute_set_whale_info, WhaleInfo};

fn percent(p: u128) -> u128 {
    p * 10_000_000_000_000_000
}

const ONE: u128 = 1_000_000_000_000_000_000;

#[test]
fn test_whale_info_validate() {
    let mut info = WhaleInfo { threshold: 0, whitelist: vec![], admin: "admin".to_string() };
    assert!(info.validate().is_ok());

    info.threshold = ONE;
    assert!(info.validate().is_ok());

    info.threshold = percent(50);
    assert!(info.validate().is_ok());

    info.threshold = percent(110);
    assert!(info.validate().is_err());
    assert_eq!(info.validate(), Err(ContractError::InvalidWhaleThreshold));
}

#[test]
fn test_whale_info_is_allowed() {
    let info = WhaleInfo {
        threshold: percent(10),
        whitelist: vec!["addr1".to_string(), "addr2".to_string()],
        admin: "admin".to_string(),
    };
    assert!(info.is_allowed(&"addr1".to_string()));
    assert!(info.is_allowed(&"addr2".to_string()));
    assert!(!info.is_allowed(&"addr3".to_string()));
}

#[test]
fn test_whale_info_assert_no_whale() {
    let addr1 = "addr1".to_string();
    let addr2 = "addr2".to_string();
    let addr3 = "addr3".to_string();
    let info = WhaleInfo {
        threshold: percent(10),
        whitelist: vec![addr1.clone(), addr2.clone()],
        admin: "admin".to_string(),
    };
    let total_supply = 1_000_000_000_000u128;
    let fish_amount = 10_000_000_000u128;
    let whale_amount = 110_000_000_000u128;

    assert!(info.assert_no_whale(total_supply, &addr1, whale_amount).is_ok());
    assert!(info.assert_no_whale(total_supply, &addr2, whale_amount).is_ok());
    assert!(info.assert_no_whale(total_supply, &addr1, fish_amount).is_ok());
    assert!(info.assert_no_whale(total_supply, &addr2, fish_amount).is_ok());

    assert!(info.assert_no_whale(total_supply, &addr3, whale_amount).is_err());
    assert!(info.assert_no_whale(total_supply, &addr3, fish_amount).is_ok());
}

#[test]
fn whale_limit_is_exactly_the_share_of_supply() {
    let info = WhaleInfo { threshold: percent(10), whitelist: vec![], admin: String::new() };
    let a = "a".to_string();
    // 10% of 1,000,005 is 100,000.5, rounded down to 100,000
    assert!(info.assert_no_whale(1_000_005, &a, 100_000).is_ok());
    assert_eq!(info.assert_no_whale(1_000_005, &a, 100_001), Err(ContractError::TooManyTokens));
}

#[test]
fn test_set_whale_info_works() {
    let mut current = WhaleInfo { threshold: ONE, whitelist: vec![], admin: "admin".to_string() };
    let expected_whale_info = WhaleInfo {
        threshold: percent(10),
        whitelist: vec!["whale1".to_string(), "whale2".to_string()],
        admin: "admin".to_string(),
    };
    execute_set_whale_info(&mut current, &"admin".to_string(), expected_whale_info.clone())
        .unwrap();
    assert_eq!(current, expected_whale_info);
}

#[test]
fn test_set_whale_info_rejects_no_admin() {
    let mut current = WhaleInfo { threshold: ONE, whitelist: vec![], admin: "admin".to_string() };
    let expected_whale_info = WhaleInfo {
        threshold: percent(10),
        whitelist: vec!["whale1".to_string(), "whale2".to_string()],
        admin: "admin".to_string(),
    };
    let err = execute_set_whale_info(&mut current, &"no_admin".to_string(), expected_whale_info);
    match err {
        Ok(_) => panic!("expected failrue"),
        Err(e) => assert_eq!(e, ContractError::Unauthorized),
    }
    assert_eq!(current.threshold, ONE);
}

#[test]
fn set_whale_info_rejects_an_invalid_threshold() {
    let mut current = WhaleInfo { threshold: ONE, whitelist: vec![], admin: "admin".to_string() };
    let proposed = WhaleInfo { threshold: percent(110), whitelist: vec![], admin: "x".to_string() };
    assert_eq!(
        execute_set_whale_info(&mut current, &"admin".to_string(), proposed),
        Err(ContractError::InvalidWhaleThreshold)
    );
    assert_eq!(current.admin, "admin");
}

#[test]
fn test_set_whale_admin() {
    let mut current = WhaleInfo {
        threshold: percent(10),
        whitelist: vec!["whale1".to_string(), "whale2".to_string()],
        admin: "admin".to_string(),
    };
    let mut expected_whale_info = current.clone();
    expected_whale_info.admin = "admin2".to_string();
    execute_set_whale_admin(&mut current, &"admin".to_string(), "admin2".to_string()).unwrap();
    assert_eq!(current, expected_whale_info);
}

#[test]
fn test_set_whale_admin_unauthorized() {
    let mut current = WhaleInfo {
        threshold: percent(10),
        whitelist: vec!["whale1".to_string(), "whale2".to_string()],
        admin: "admin".to_string(),
    };
    let res = execute_set_whale_admin(&mut current, &"no_admin".to_string(), "admin2".to_string());
    match res {
        Ok(_) => panic!("unexpected success of setting admin!"),
        Err(e) => assert_eq!(e, ContractError::Unauthorized),
    }
}

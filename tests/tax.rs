use cw20_taxed::error::ContractError;
use cw20_taxed::tax::{
    TaxAlwaysCondition, TaxCondition, TaxContractCodeCondition, TaxInfo, TaxMap,
    TaxNeverCondition,
};

/// `p` percent, in atomics.
fn percent(p: u128) -> u128 {
    p * 10_000_000_000_000_000
}

/// The code identifiers of the mock chain: addresses "0", "1" and "2" are
/// contracts with codes 0, 1 and 2; "3" is not a contract.
fn code_of(addr: &str) -> Option<u64> {
    match addr {
        "0" => Some(0),
        "1" => Some(1),
        "2" => Some(2),
        _ => None,
    }
}

fn contract_code_condition() -> TaxCondition {
    TaxCondition::ContractCode(TaxContractCodeCondition {
        code_ids: vec![0, 1],
        tax_rate: percent(10),
    })
}

fn always(p: u128) -> TaxCondition {
    TaxCondition::Always(TaxAlwaysCondition { tax_rate: percent(p) })
}

fn never() -> TaxCondition {
    TaxCondition::Never(TaxNeverCondition {})
}

#[test]
fn test_tax_condition_is_taxed() {
    let none_condition = never();
    assert_eq!(none_condition.is_taxed(code_of("0")), false);

    let c = contract_code_condition();
    assert_eq!(c.is_taxed(code_of("0")), true);
    assert_eq!(c.is_taxed(code_of("1")), true);
    assert_eq!(c.is_taxed(code_of("2")), false);
    assert_eq!(c.is_taxed(code_of("3")), false);

    let c = always(10);
    assert_eq!(c.is_taxed(code_of("0")), true);
    assert_eq!(c.is_taxed(code_of("1")), true);
    assert_eq!(c.is_taxed(code_of("2")), true);
    assert_eq!(c.is_taxed(code_of("3")), true);
}

#[test]
fn test_tax_condition_tax_rate() {
    let none_condition = never();
    assert_eq!(none_condition.tax_rate(code_of("0")), 0);

    let c = contract_code_condition();
    assert_eq!(c.tax_rate(code_of("0")), percent(10));
    assert_eq!(c.tax_rate(code_of("1")), percent(10));
    assert_eq!(c.tax_rate(code_of("2")), 0);
    assert_eq!(c.tax_rate(code_of("3")), 0);

    let c = always(10);
    assert_eq!(c.tax_rate(code_of("0")), percent(10));
    assert_eq!(c.tax_rate(code_of("1")), percent(10));
    assert_eq!(c.tax_rate(code_of("2")), percent(10));
    assert_eq!(c.tax_rate(code_of("3")), percent(10));
}

/// Splits `amount` for a transfer to `addr` that `addr` also pays.
fn deduct(info: &TaxInfo, addr: &str, amount: u128) -> Result<(u128, u128), ContractError> {
    info.deduct_tax(code_of(addr), &addr.to_string(), code_of(addr), amount)
}

#[test]
fn test_tax_info_deduct_tax() {
    let tax_info = TaxInfo { src_cond: never(), dst_cond: never(), proceeds: "0".to_string() };
    assert_eq!(deduct(&tax_info, "0", 100), Ok((100, 0)));

    let tax_info_with_tax = TaxInfo {
        src_cond: contract_code_condition(),
        dst_cond: contract_code_condition(),
        proceeds: "0".to_string(),
    };
    // listed contract but proceeds wallet: no tax
    assert_eq!(deduct(&tax_info_with_tax, "0", 100), Ok((100, 0)));
    // listed contract: tax
    assert_eq!(deduct(&tax_info_with_tax, "1", 100), Ok((90, 10)));
    // unlisted contract: no tax
    assert_eq!(deduct(&tax_info_with_tax, "2", 100), Ok((100, 0)));
    // not a contract: no tax
    assert_eq!(deduct(&tax_info_with_tax, "3", 100), Ok((100, 0)));

    let tax_info_with_tax =
        TaxInfo { src_cond: always(10), dst_cond: always(10), proceeds: "0".to_string() };
    assert_eq!(deduct(&tax_info_with_tax, "0", 100), Ok((100, 0)));
    assert_eq!(deduct(&tax_info_with_tax, "1", 100), Ok((90, 10)));
    assert_eq!(deduct(&tax_info_with_tax, "2", 100), Ok((90, 10)));
    assert_eq!(deduct(&tax_info_with_tax, "3", 100), Ok((90, 10)));
}

#[test]
fn test_tax_condition_validate() {
    assert_eq!(TaxAlwaysCondition { tax_rate: percent(110) }.validate(), false);
    assert_eq!(TaxAlwaysCondition { tax_rate: percent(10) }.validate(), true);
    assert_eq!(TaxNeverCondition {}.validate(), true);
}

#[test]
fn test_tax_info_validate() {
    let blubb = "blubb".to_string();
    let invalid_tax_info1 =
        TaxInfo { src_cond: always(110), dst_cond: always(10), proceeds: blubb.clone() };
    let invalid_tax_info2 =
        TaxInfo { src_cond: always(110), dst_cond: always(110), proceeds: blubb.clone() };
    let invalid_tax_info3 =
        TaxInfo { src_cond: always(11), dst_cond: always(110), proceeds: blubb.clone() };
    let valid_tax_info = TaxInfo { src_cond: always(11), dst_cond: always(10), proceeds: blubb };
    assert_eq!(invalid_tax_info1.validate(), false);
    assert_eq!(invalid_tax_info2.validate(), false);
    assert_eq!(invalid_tax_info3.validate(), false);
    assert_eq!(valid_tax_info.validate(), true);
}

#[test]
fn test_tax_map_validate() {
    let blubb = "blubb".to_string();
    let invalid_tax_info =
        TaxInfo { src_cond: always(110), dst_cond: always(10), proceeds: blubb.clone() };
    let valid_tax_info = TaxInfo { src_cond: always(11), dst_cond: always(10), proceeds: blubb };
    let valid_tax_map = TaxMap {
        on_transfer: valid_tax_info.clone(),
        on_send: valid_tax_info.clone(),
        on_send_from: valid_tax_info.clone(),
        on_transfer_from: valid_tax_info.clone(),
        admin: String::new(),
    };
    let invalid_tax_map = TaxMap {
        on_transfer: valid_tax_info.clone(),
        on_send: invalid_tax_info.clone(),
        on_send_from: valid_tax_info.clone(),
        on_transfer_from: valid_tax_info.clone(),
        admin: String::new(),
    };
    assert_eq!(valid_tax_map.validate().is_ok(), true);
    assert_eq!(invalid_tax_map.validate().is_err(), true);
    assert_eq!(invalid_tax_map.validate(), Err(ContractError::InvalidTaxMap));
}

#[test]
fn contract_code_condition_validate_checks_rate() {
    let ok = TaxContractCodeCondition { code_ids: vec![1], tax_rate: percent(100) };
    let bad = TaxContractCodeCondition { code_ids: vec![1], tax_rate: percent(100) + 1 };
    assert!(ok.validate());
    assert!(!bad.validate());
    assert!(TaxCondition::ContractCode(ok).validate());
    assert!(!TaxCondition::ContractCode(bad).validate());
}

#[test]
fn split_of_the_worked_example() {
    // 76,543 at 10%: net is ceil(68,888.7) = 68,889, tax is 7,654.
    let c = always(10);
    assert_eq!(c.tax_deduction(None, 76_543), Ok((68_889, 7_654)));
    assert_eq!(c.get_net(None, 76_543), 68_889);
    assert_eq!(c.get_tax(None, 76_543), 7_654);
}

#[test]
fn split_conserves_the_amount() {
    for p in [0u128, 1, 3, 10, 33, 50, 99, 100] {
        for amount in [0u128, 1, 2, 7, 99, 100, 101, 76_543, 12_340_000, 999_999_999_999] {
            let (net, tax) = always(p).tax_deduction(None, amount).unwrap();
            assert_eq!(net + tax, amount);
            assert!(tax <= amount);
            // the tax never exceeds amount * rate
            assert!(tax * 100 <= amount * p);
        }
    }
}

#[test]
fn split_rounds_in_favour_of_the_recipient() {
    // 1 unit at 10%: the net part rounds up to the whole unit.
    assert_eq!(always(10).tax_deduction(None, 1), Ok((1, 0)));
    // 19 units at 10%: 17.1 rounds up to 18, the tax is 1.
    assert_eq!(always(10).tax_deduction(None, 19), Ok((18, 1)));
    // full rate takes everything, zero rate nothing
    assert_eq!(always(100).tax_deduction(None, 5_000), Ok((0, 5_000)));
    assert_eq!(always(0).tax_deduction(None, 5_000), Ok((5_000, 0)));
    assert_eq!(always(10).tax_deduction(None, 0), Ok((0, 0)));
}

#[test]
fn split_rejects_an_amount_too_large_for_a_decimal() {
    // 2^128 - 1 atomics is 340282366920938463463.37... whole units.
    let largest = 340_282_366_920_938_463_463u128;
    assert!(always(10).tax_deduction(None, largest).is_ok());
    assert_eq!(always(10).tax_deduction(None, largest + 1), Err(ContractError::InvalidAmount));
    assert_eq!(always(10).get_tax(None, largest + 1), 0);
    assert_eq!(always(10).get_net(None, largest + 1), 0);
}

#[test]
fn split_rejects_a_rate_above_one() {
    assert_eq!(always(110).tax_deduction(None, 100), Err(ContractError::NegativeTax));
    assert_eq!(always(110).get_net(None, 100), 0);
    // nothing to tax: a zero amount still splits
    assert_eq!(always(110).tax_deduction(None, 0), Ok((0, 0)));
}

#[test]
fn rule_uses_the_payer_for_the_source_and_the_recipient_for_the_destination() {
    let rule = TaxInfo {
        src_cond: TaxCondition::ContractCode(TaxContractCodeCondition {
            code_ids: vec![7],
            tax_rate: percent(20),
        }),
        dst_cond: always(20),
        proceeds: "proceeds".to_string(),
    };
    let recipient = "someone".to_string();
    assert_eq!(rule.deduct_tax(Some(7), &recipient, None, 1_000), Ok((800, 200)));
    assert_eq!(rule.deduct_tax(None, &recipient, Some(7), 1_000), Ok((1_000, 0)));
    assert_eq!(rule.deduct_tax(Some(7), &"proceeds".to_string(), None, 1_000), Ok((1_000, 0)));
}

#[test]
fn default_tax_map_is_untaxed() {
    let m = TaxMap::default();
    assert_eq!(m.admin, "");
    assert_eq!(m.on_transfer, TaxInfo::default());
    assert_eq!(m.on_send_from.src_cond, never());
    assert_eq!(m.on_send.proceeds, "");
    assert!(m.validate().is_ok());
}

use std::str::FromStr;

use bookkeeper::account::{AccountType, ParseAccountTypeError};
use bookkeeper::error::Error;
use bookkeeper::ledger::{account_new, allocate_account_id, AccountIdSource};

#[test]
fn parse_accepts_every_named_type() {
    let names = [
        ("Cash", AccountType::Cash),
        ("CurrentAsset", AccountType::CurrentAsset),
        ("CurrentLiability", AccountType::CurrentLiability),
        ("DirectExpense", AccountType::DirectExpense),
        ("Equity", AccountType::Equity),
        ("IndirectExpense", AccountType::IndirectExpense),
        ("Inventory", AccountType::Inventory),
        ("NonCurrentAsset", AccountType::NonCurrentAsset),
        ("NonCurrentLiability", AccountType::NonCurrentLiability),
        ("OtherIncome", AccountType::OtherIncome),
        ("Prepayments", AccountType::Prepayments),
        ("Revenue", AccountType::Revenue),
    ];
    for (name, t) in names {
        assert_eq!(AccountType::parse(name), Ok(t));
        assert_eq!(AccountType::from_str(name), Ok(t));
        assert_eq!(t.name(), name.to_string());
    }
}

#[test]
fn parse_accepts_system_and_refuses_near_misses() {
    assert_eq!(AccountType::parse("System"), Ok(AccountType::System));
    assert_eq!(AccountType::from_str("System"), Ok(AccountType::System));
    assert_eq!(AccountType::parse("system"), Err(ParseAccountTypeError));
    assert_eq!(AccountType::parse("cash"), Err(ParseAccountTypeError));
    assert_eq!(AccountType::parse("Cash "), Err(ParseAccountTypeError));
    assert_eq!(AccountType::parse(""), Err(ParseAccountTypeError));
    assert_eq!(AccountType::parse("CurrentAssets"), Err(ParseAccountTypeError));
    assert_eq!(AccountType::System.name(), "System".to_string());
}

#[test]
fn sequence_setting_names_follow_the_type() {
    assert_eq!(AccountType::Cash.sequence_setting_name(), "nextAccountCash".to_string());
    assert_eq!(AccountType::OtherIncome.sequence_setting_name(), "nextAccountOtherIncome".to_string());
}

#[test]
fn account_id_range_boundaries() {
    let name = "x".to_string();
    assert!(matches!(account_new(Some(1000), &name, &AccountType::Cash), Err(Error::InstructionError(_))));
    assert!(matches!(account_new(Some(999), &name, &AccountType::Cash), Ok(AccountIdSource::Given(999))));
    assert!(matches!(account_new(Some(1), &name, &AccountType::Cash), Ok(AccountIdSource::Given(1))));
    assert!(matches!(account_new(Some(0), &name, &AccountType::Cash), Err(Error::InstructionError(_))));
    assert!(matches!(account_new(Some(-5), &name, &AccountType::Cash), Err(Error::InstructionError(_))));
}

#[test]
fn account_name_length_limit() {
    let ok = "a".repeat(140);
    let long = "a".repeat(141);
    assert!(account_new(Some(5), &ok, &AccountType::Equity).is_ok());
    assert!(matches!(account_new(Some(5), &long, &AccountType::Equity), Err(Error::InstructionError(_))));
    let wide = "é".repeat(140);
    assert!(account_new(Some(5), &wide, &AccountType::Equity).is_ok());
}

#[test]
fn auto_allocated_id_uses_the_type_sequence() {
    let name = "Bank".to_string();
    match account_new(None, &name, &AccountType::Cash) {
        Ok(AccountIdSource::Sequence(setting)) => assert_eq!(setting, "nextAccountCash".to_string()),
        _ => panic!("expected a sequence"),
    }
    assert!(matches!(account_new(None, &"a".repeat(141), &AccountType::Cash), Err(Error::InstructionError(_))));
}

#[test]
fn allocation_hands_out_the_counter_and_moves_it_on() {
    assert_eq!(allocate_account_id(Some(1000)), Ok((1000, 1001)));
    assert!(matches!(allocate_account_id(None), Err(Error::NotFoundError(_))));
    assert!(matches!(allocate_account_id(Some(i64::MAX)), Err(Error::InstructionError(_))));
}

#[test]
fn successive_allocations_never_collide() {
    let mut counter = Some(7);
    let mut ids = Vec::new();
    for _ in 0..50 {
        let (id, next) = allocate_account_id(counter).unwrap();
        ids.push(id);
        counter = Some(next);
    }
    let mut sorted = ids.clone();
    sorted.sort();
    sorted.dedup();
    assert_eq!(sorted.len(), 50);
    assert_eq!(ids[0], 7);
    assert_eq!(ids[49], 56);
}

#[test]
fn error_messages() {
    assert_eq!(Error::JournalBalanceError.message(), "journal entry does not balance".to_string());
    assert_eq!(
        Error::InstructionError("bad".to_string()).message(),
        "instruction contained invalid value: bad".to_string()
    );
    assert_eq!(Error::NotFoundError("x".to_string()).message(), "not found: x".to_string());
    assert_eq!(Error::StorageError("y".to_string()).message(), "storage error: y".to_string());
}

#[test]
fn stored_names_round_trip() {
    let all = [
        AccountType::Cash,
        AccountType::CurrentAsset,
        AccountType::CurrentLiability,
        AccountType::Equity,
        AccountType::DirectExpense,
        AccountType::IndirectExpense,
        AccountType::Inventory,
        AccountType::NonCurrentAsset,
        AccountType::NonCurrentLiability,
        AccountType::OtherIncome,
        AccountType::Prepayments,
        AccountType::Revenue,
        AccountType::System,
    ];
    for t in all {
        assert_eq!(AccountType::from_stored(&t.stored_name()), Ok(t));
    }
    assert_eq!(AccountType::CurrentAsset.stored_name(), "currentAsset".to_string());
    assert!(matches!(AccountType::from_stored("Cash"), Err(Error::StorageError(_))));
}

#[test]
fn allocating_from_a_full_sequence_is_an_instruction_error() {
    assert_eq!(allocate_account_id(Some(i64::MAX - 1)), Ok((i64::MAX - 1, i64::MAX)));
    assert!(matches!(allocate_account_id(Some(i64::MAX)), Err(Error::InstructionError(_))));
}

#[test]
fn successive_allocations_cover_a_contiguous_range() {
    let mut counter = Some(1000);
    let mut ids = Vec::new();
    for _ in 0..5 {
        let (id, next) = allocate_account_id(counter).unwrap();
        ids.push(id);
        counter = Some(next);
    }
    assert_eq!(ids, vec![1000, 1001, 1002, 1003, 1004]);
    assert_eq!(counter, Some(1005));
}

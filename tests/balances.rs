use bookkeeper::account::AccountType;
use bookkeeper::error::Error;
use bookkeeper::ledger::{account_detail, account_list, AccountSummary};
use bookkeeper::query::{account_detail_query, account_list_query, AccountRow, EntryRow};
use bookkeeper::report::{filter_accounts_list, report_balance_sheet, sum_filter_accounts_list};

fn acct(id: i64, name: &str, t: AccountType) -> AccountRow {
    AccountRow { id, name: name.to_string(), account_type: t }
}

fn row(account_id: i64, amount: i64) -> EntryRow {
    EntryRow { account_id, amount }
}

fn summary(id: i64, t: AccountType, balance: i64) -> AccountSummary {
    AccountSummary {
        account_id: id,
        account_name: format!("a{id}"),
        account_type: t,
        account_balance: balance,
        timestamp: "2024-01-01 00:00:00".to_string(),
    }
}

#[test]
fn listing_sums_entries_and_keeps_empty_accounts() {
    let accounts = vec![acct(1, "Bank", AccountType::Cash), acct(2, "Sales", AccountType::Revenue), acct(3, "Idle", AccountType::Equity)];
    let entries = vec![row(1, 500), row(2, -500), row(1, -20), row(2, 20)];
    let ts = "2024-05-01 10:00:00".to_string();
    let v = account_list(&accounts, &entries, &ts).unwrap();
    assert_eq!(v.len(), 3);
    assert_eq!((v[0].account_id, v[0].account_balance), (1, 480));
    assert_eq!((v[1].account_id, v[1].account_balance), (2, -480));
    assert_eq!((v[2].account_id, v[2].account_balance), (3, 0));
    assert_eq!(v[2].account_name, "Idle".to_string());
    assert_eq!(v[1].account_type, AccountType::Revenue);
    assert!(v.iter().all(|s| s.timestamp == ts));
    let raw = account_list_query(&accounts, &entries, &ts).unwrap();
    assert_eq!(raw[0].balance, 480);
}

#[test]
fn listing_twice_gives_the_same_balances() {
    let accounts = vec![acct(1, "Bank", AccountType::Cash), acct(2, "Loan", AccountType::CurrentLiability)];
    let entries = vec![row(1, 70), row(2, -70)];
    let a = account_list(&accounts, &entries, &"t1".to_string()).unwrap();
    let b = account_list(&accounts, &entries, &"t2".to_string()).unwrap();
    let ba: Vec<i64> = a.iter().map(|s| s.account_balance).collect();
    let bb: Vec<i64> = b.iter().map(|s| s.account_balance).collect();
    assert_eq!(ba, bb);
    assert_eq!(a[0].timestamp, "t1".to_string());
    assert_eq!(b[0].timestamp, "t2".to_string());
}

#[test]
fn listing_overflow_is_a_storage_error() {
    let accounts = vec![acct(1, "Big", AccountType::Cash)];
    let entries = vec![row(1, i64::MAX), row(1, 1)];
    assert!(matches!(account_list(&accounts, &entries, &String::new()), Err(Error::StorageError(_))));
    let entries = vec![row(1, i64::MAX), row(1, 1), row(1, -1)];
    assert_eq!(account_list(&accounts, &entries, &String::new()).unwrap()[0].account_balance, i64::MAX);
}

#[test]
fn posting_then_detail_round_trip() {
    let accounts = vec![acct(10, "A", AccountType::Cash), acct(20, "B", AccountType::Revenue)];
    let entries = vec![row(10, 500), row(20, -500)];
    let ts = "now".to_string();
    let a = account_detail(10, &accounts, &entries, &ts).unwrap();
    assert_eq!((a.total_debits, a.total_credits, a.balance), (500, 0, 500));
    assert_eq!(a.account_id, 10);
    assert_eq!(a.account_name, "A".to_string());
    let b = account_detail(20, &accounts, &entries, &ts).unwrap();
    assert_eq!((b.total_debits, b.total_credits, b.balance), (0, 500, -500));
    assert_eq!(b.account_type, AccountType::Revenue);
}

#[test]
fn detail_of_a_missing_account_is_not_found() {
    let accounts = vec![acct(10, "A", AccountType::Cash)];
    assert!(matches!(account_detail(11, &accounts, &vec![row(11, 5)], &String::new()), Err(Error::NotFoundError(_))));
    assert!(matches!(account_detail_query(1, &vec![], &vec![], &String::new()), Err(Error::NotFoundError(_))));
    let d = account_detail(10, &accounts, &vec![], &String::new()).unwrap();
    assert_eq!((d.total_debits, d.total_credits, d.balance), (0, 0, 0));
}

#[test]
fn detail_overflow_is_a_storage_error() {
    let accounts = vec![acct(1, "A", AccountType::Cash)];
    let entries = vec![row(1, i64::MIN)];
    assert!(matches!(account_detail(1, &accounts, &entries, &String::new()), Err(Error::StorageError(_))));
    let entries = vec![row(1, i64::MAX), row(1, -i64::MAX)];
    let d = account_detail(1, &accounts, &entries, &String::new()).unwrap();
    assert_eq!((d.total_debits, d.total_credits, d.balance), (i64::MAX, i64::MAX, 0));
}

#[test]
fn balance_sheet_example() {
    let accounts = vec![summary(100, AccountType::Cash, 100), summary(200, AccountType::CurrentLiability, -50)];
    let rep = report_balance_sheet(&accounts, "Acme".to_string()).unwrap();
    assert_eq!(rep.entity_name, "Acme".to_string());
    assert_eq!(rep.total_cash, 100);
    assert_eq!(rep.total_current_assets, 100);
    assert_eq!(rep.total_current_liabilities, -50);
    assert_eq!(rep.net_assets, 50);
    assert_eq!(rep.cash.len(), 1);
    assert_eq!(rep.current_assets.len(), 0);
    assert_eq!(rep.current_liabilities[0].account_id, 200);
}

#[test]
fn balance_sheet_sections() {
    let accounts = vec![
        summary(1, AccountType::Cash, 10),
        summary(2, AccountType::Inventory, 20),
        summary(3, AccountType::Revenue, -99),
        summary(4, AccountType::Prepayments, 5),
        summary(5, AccountType::CurrentAsset, 1),
        summary(6, AccountType::CurrentLiability, -30),
    ];
    let rep = report_balance_sheet(&accounts, String::new()).unwrap();
    let ids: Vec<i64> = rep.current_assets.iter().map(|a| a.account_id).collect();
    assert_eq!(ids, vec![2, 4, 5]);
    assert_eq!(rep.total_current_assets, 36);
    assert_eq!(rep.net_assets, 6);
    let listed = filter_accounts_list(&accounts, &vec![AccountType::Revenue, AccountType::Cash]);
    let ids: Vec<i64> = listed.iter().map(|a| a.account_id).collect();
    assert_eq!(ids, vec![1, 3]);
    assert_eq!(sum_filter_accounts_list(&accounts, &vec![AccountType::Revenue, AccountType::Cash]), Some(-89));
    assert_eq!(sum_filter_accounts_list(&accounts, &vec![]), Some(0));
}

#[test]
fn balance_sheet_total_out_of_range() {
    let accounts = vec![summary(1, AccountType::Cash, i64::MAX), summary(2, AccountType::Inventory, 1)];
    assert_eq!(sum_filter_accounts_list(&accounts, &vec![AccountType::Cash, AccountType::Inventory]), None);
    assert!(report_balance_sheet(&accounts, String::new()).is_none());
}

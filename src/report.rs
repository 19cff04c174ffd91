//! The balance sheet: account balances grouped by account type into sections,
//! with section totals and net assets.
use vstd::prelude::*;

use crate::account::AccountType;
use crate::ledger::{lemma_accumulate_fits, magnitude, AccountSummary};
use crate::query::fits_i64;

verus! {

/// The account's type is one of `types`.
pub open spec fn in_section(a: AccountSummary, types: Seq<AccountType>) -> bool {
    types.contains(a.account_type)
}

/// The accounts whose type is one of `types`, in their order.
pub open spec fn section_members(s: Seq<AccountSummary>, types: Seq<AccountType>) -> Seq<AccountSummary>
    decreases s.len(),
{
    if s.len() == 0 {
        Seq::empty()
    } else if in_section(s.last(), types) {
        section_members(s.drop_last(), types).push(s.last())
    } else {
        section_members(s.drop_last(), types)
    }
}

/// The sum of the balances of the accounts whose type is one of `types`.
pub open spec fn section_total(s: Seq<AccountSummary>, types: Seq<AccountType>) -> int
    decreases s.len(),
{
    if s.len() == 0 {
        0
    } else {
        section_total(s.drop_last(), types) + if in_section(s.last(), types) {
            s.last().account_balance as int
        } else {
            0
        }
    }
}

/// The types of the cash section.
pub open spec fn cash_types() -> Seq<AccountType> {
    seq![AccountType::Cash]
}

/// The types listed in the current-assets section.
pub open spec fn current_asset_types() -> Seq<AccountType> {
    seq![AccountType::CurrentAsset, AccountType::Inventory, AccountType::Prepayments]
}

/// The types whose balances make up total current assets: cash counts here too.
pub open spec fn current_asset_total_types() -> Seq<AccountType> {
    seq![AccountType::Cash, AccountType::CurrentAsset, AccountType::Inventory, AccountType::Prepayments]
}

/// The types of the current-liabilities section.
pub open spec fn current_liability_types() -> Seq<AccountType> {
    seq![AccountType::CurrentLiability]
}

fn contains_type(types: &Vec<AccountType>, t: AccountType) -> (r: bool)
    ensures
        r == types@.contains(t),
{
    let mut i: usize = 0;
    while i < types.len()
        invariant
            i <= types@.len(),
            forall|k: int| 0 <= k < i ==> types@[k] != t,
        decreases types@.len() - i,
    {
        if types[i] == t {
            assert(types@[i as int] == t);
            return true;
        }
        i += 1;
    }
    false
}

/// The accounts whose type is one of `types`, in their order.
pub fn filter_accounts_list(accounts: &Vec<AccountSummary>, types: &Vec<AccountType>) -> (r: Vec<AccountSummary>)
    ensures
        r@ == section_members(accounts@, types@),
{
    let mut out: Vec<AccountSummary> = Vec::new();
    let mut i: usize = 0;
    while i < accounts.len()
        invariant
            i <= accounts@.len(),
            out@ == section_members(accounts@.subrange(0, i as int), types@),
        decreases accounts@.len() - i,
    {
        proof {
            assert(accounts@.subrange(0, i + 1).drop_last() =~= accounts@.subrange(0, i as int));
        }
        if contains_type(types, accounts[i].account_type) {
            out.push(accounts[i].clone());
        }
        i += 1;
    }
    assert(accounts@.subrange(0, i as int) =~= accounts@);
    out
}

/// The sum of the balances of the accounts whose type is one of `types`, or
/// `None` where an `i64` cannot hold it.
pub fn sum_filter_accounts_list(accounts: &Vec<AccountSummary>, types: &Vec<AccountType>) -> (r: Option<i64>)
    ensures
        r is Some <==> fits_i64(section_total(accounts@, types@)),
        r matches Some(t) ==> t == section_total(accounts@, types@),
{
    let mut acc: i128 = 0;
    let mut i: usize = 0;
    while i < accounts.len()
        invariant
            i <= accounts@.len(),
            acc == section_total(accounts@.subrange(0, i as int), types@),
            -(i * magnitude()) <= acc <= i * magnitude(),
        decreases accounts@.len() - i,
    {
        let balance = accounts[i].account_balance;
        proof {
            assert(accounts@.subrange(0, i + 1).drop_last() =~= accounts@.subrange(0, i as int));
            lemma_accumulate_fits(i as int, accounts@.len() as int, acc as int, balance as int);
            lemma_accumulate_fits(i as int, accounts@.len() as int, acc as int, 0);
        }
        if contains_type(types, accounts[i].account_type) {
            acc = acc + balance as i128;
        }
        i += 1;
    }
    assert(accounts@.subrange(0, i as int) =~= accounts@);
    if acc < i64::MIN as i128 || acc > i64::MAX as i128 {
        None
    } else {
        Some(acc as i64)
    }
}

/// The sections and totals of a balance sheet.
pub struct BalanceSheetReport {
    pub entity_name: String,
    pub cash: Vec<AccountSummary>,
    pub total_cash: i64,
    pub current_assets: Vec<AccountSummary>,
    pub total_current_assets: i64,
    pub current_liabilities: Vec<AccountSummary>,
    pub total_current_liabilities: i64,
    /// Total current assets plus total current liabilities, which carry negative balances.
    pub net_assets: i64,
}

/// Every total of the balance sheet of `s` can be held in an `i64`.
pub open spec fn reportable(s: Seq<AccountSummary>) -> bool {
    &&& fits_i64(section_total(s, cash_types()))
    &&& fits_i64(section_total(s, current_asset_total_types()))
    &&& fits_i64(section_total(s, current_liability_types()))
    &&& fits_i64(
        section_total(s, current_asset_total_types()) + section_total(s, current_liability_types()),
    )
}

/// Groups the accounts into the sections of a balance sheet with their totals.
///
/// Cash accounts are listed in the cash section and counted in total current
/// assets. `None` where a total cannot be held in an `i64`.
pub fn report_balance_sheet(accounts: &Vec<AccountSummary>, entity_name: String) -> (r: Option<
    BalanceSheetReport,
>)
    ensures
        r is Some <==> reportable(accounts@),
        r matches Some(rep) ==> {
            &&& rep.entity_name == entity_name
            &&& rep.cash@ == section_members(accounts@, cash_types())
            &&& rep.total_cash == section_total(accounts@, cash_types())
            &&& rep.current_assets@ == section_members(accounts@, current_asset_types())
            &&& rep.total_current_assets == section_total(accounts@, current_asset_total_types())
            &&& rep.current_liabilities@ == section_members(accounts@, current_liability_types())
            &&& rep.total_current_liabilities == section_total(accounts@, current_liability_types())
            &&& rep.net_assets == rep.total_current_assets + rep.total_current_liabilities
        },
{
    let cash_t = vec![AccountType::Cash];
    let assets_t = vec![AccountType::CurrentAsset, AccountType::Inventory, AccountType::Prepayments];
    let assets_total_t = vec![
        AccountType::Cash,
        AccountType::CurrentAsset,
        AccountType::Inventory,
        AccountType::Prepayments,
    ];
    let liabilities_t = vec![AccountType::CurrentLiability];
    assert(cash_t@ =~= cash_types());
    assert(assets_t@ =~= current_asset_types());
    assert(assets_total_t@ =~= current_asset_total_types());
    assert(liabilities_t@ =~= current_liability_types());
    let total_cash = sum_filter_accounts_list(accounts, &cash_t)?;
    let total_current_assets = sum_filter_accounts_list(accounts, &assets_total_t)?;
    let total_current_liabilities = sum_filter_accounts_list(accounts, &liabilities_t)?;
    let net = total_current_assets as i128 + total_current_liabilities as i128;
    if net < i64::MIN as i128 || net > i64::MAX as i128 {
        return None;
    }
    Some(BalanceSheetReport {
        entity_name,
        cash: filter_accounts_list(accounts, &cash_t),
        total_cash,
        current_assets: filter_accounts_list(accounts, &assets_t),
        total_current_assets,
        current_liabilities: filter_accounts_list(accounts, &liabilities_t),
        total_current_liabilities,
        net_assets: net as i64,
    })
}

} // verus!

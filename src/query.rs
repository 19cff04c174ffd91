//! Aggregation over the stored rows: per-account balances and the debit and
//! credit totals of one account, derived from the append-only entry log.
use vstd::prelude::*;
use vstd::string::*;

use crate::account::AccountType;
use crate::error::Error;
use crate::ledger::{lemma_accumulate_fits, magnitude};

verus! {

/// A stored account.
pub struct AccountRow {
    pub id: i64,
    pub name: String,
    pub account_type: AccountType,
}

/// A stored entry: a signed amount against an account.
#[derive(Clone, Copy, Debug, PartialEq, Eq, Structural)]
pub struct EntryRow {
    pub account_id: i64,
    pub amount: i64,
}

/// What the detail query finds for one account.
pub struct AccountDetailResult {
    /// The account name.
    pub account_name: String,
    /// The type of account.
    pub account_type: AccountType,
    /// The total value of all debits made to the account.
    pub total_debits: i64,
    /// The total value of all credits made to the account, as a positive number.
    pub total_credits: i64,
    /// When the result was generated.
    pub timestamp: String,
}

/// What the list query finds for one account.
pub struct AccountSummaryResult {
    /// The account id.
    pub account_id: i64,
    /// The account name.
    pub account_name: String,
    /// The account type.
    pub account_type: AccountType,
    /// The balance of the account: positive for a debit balance, negative for a credit balance.
    pub balance: i64,
    /// When the result was generated.
    pub timestamp: String,
}

/// The sum of all amounts posted against an account.
pub open spec fn balance_of(es: Seq<EntryRow>, id: i64) -> int
    decreases es.len(),
{
    if es.len() == 0 {
        0
    } else {
        balance_of(es.drop_last(), id) + if es.last().account_id == id {
            es.last().amount as int
        } else {
            0
        }
    }
}

/// The sum of the positive amounts posted against an account.
pub open spec fn debits_of(es: Seq<EntryRow>, id: i64) -> int
    decreases es.len(),
{
    if es.len() == 0 {
        0
    } else {
        debits_of(es.drop_last(), id) + if es.last().account_id == id && es.last().amount > 0 {
            es.last().amount as int
        } else {
            0
        }
    }
}

/// The magnitude of the sum of the negative amounts posted against an account.
pub open spec fn credits_of(es: Seq<EntryRow>, id: i64) -> int
    decreases es.len(),
{
    if es.len() == 0 {
        0
    } else {
        credits_of(es.drop_last(), id) + if es.last().account_id == id && es.last().amount < 0 {
            -(es.last().amount as int)
        } else {
            0
        }
    }
}

/// The value can be held in an `i64`.
pub open spec fn fits_i64(x: int) -> bool {
    i64::MIN <= x <= i64::MAX
}

/// An account's balance is its debits less its credits.
pub proof fn lemma_balance_split(es: Seq<EntryRow>, id: i64)
    ensures
        balance_of(es, id) == debits_of(es, id) - credits_of(es, id),
        debits_of(es, id) >= 0,
        credits_of(es, id) >= 0,
    decreases es.len(),
{
    if es.len() > 0 {
        lemma_balance_split(es.drop_last(), id);
    }
}

/// Debit and credit totals of one account, exactly.
fn entry_totals(entries: &Vec<EntryRow>, id: i64) -> (r: (i128, i128))
    ensures
        r.0 == debits_of(entries@, id),
        r.1 == credits_of(entries@, id),
{
    let mut debits: i128 = 0;
    let mut credits: i128 = 0;
    let mut i: usize = 0;
    while i < entries.len()
        invariant
            i <= entries@.len(),
            debits == debits_of(entries@.subrange(0, i as int), id),
            credits == credits_of(entries@.subrange(0, i as int), id),
            0 <= debits <= i * magnitude(),
            0 <= credits <= i * magnitude(),
        decreases entries@.len() - i,
    {
        let e = entries[i];
        proof {
            assert(entries@.subrange(0, i + 1).drop_last() =~= entries@.subrange(0, i as int));
            lemma_accumulate_fits(i as int, entries@.len() as int, debits as int, magnitude());
        }
        if e.account_id == id {
            if e.amount > 0 {
                debits = debits + e.amount as i128;
            } else if e.amount < 0 {
                credits = credits - e.amount as i128;
            }
        }
        i += 1;
    }
    assert(entries@.subrange(0, i as int) =~= entries@);
    (debits, credits)
}

/// The list result for one account row.
pub open spec fn summarizes(r: AccountSummaryResult, a: AccountRow, es: Seq<EntryRow>, timestamp: Seq<char>) -> bool {
    &&& r.account_id == a.id
    &&& r.account_name@ == a.name@
    &&& r.account_type == a.account_type
    &&& r.balance == balance_of(es, a.id)
    &&& r.timestamp@ == timestamp
}

/// Lists every account with the sum of its entries; an account without entries
/// has balance 0. Rows come in the order of `accounts`. A balance that an `i64`
/// cannot hold is a storage error.
pub fn account_list_query(accounts: &Vec<AccountRow>, entries: &Vec<EntryRow>, timestamp: &String) -> (r:
    Result<Vec<AccountSummaryResult>, Error>)
    ensures
        r is Ok <==> forall|i: int|
            0 <= i < accounts@.len() ==> fits_i64(balance_of(entries@, #[trigger] accounts@[i].id)),
        r matches Err(e) ==> e is StorageError,
        r matches Ok(v) ==> v@.len() == accounts@.len() && forall|i: int|
            0 <= i < accounts@.len() ==> summarizes(#[trigger] v@[i], accounts@[i], entries@, timestamp@),
{
    let mut out: Vec<AccountSummaryResult> = Vec::new();
    let mut i: usize = 0;
    while i < accounts.len()
        invariant
            i <= accounts@.len(),
            out@.len() == i,
            forall|k: int| 0 <= k < i ==> fits_i64(balance_of(entries@, #[trigger] accounts@[k].id)),
            forall|k: int| 0 <= k < i ==> summarizes(#[trigger] out@[k], accounts@[k], entries@, timestamp@),
        decreases accounts@.len() - i,
    {
        let a = &accounts[i];
        let (debits, credits) = entry_totals(entries, a.id);
        proof {
            lemma_balance_split(entries@, a.id);
        }
        let balance = debits - credits;
        if balance < i64::MIN as i128 || balance > i64::MAX as i128 {
            return Err(Error::StorageError(String::from_str("integer overflow")));
        }
        out.push(AccountSummaryResult {
            account_id: a.id,
            account_name: a.name.clone(),
            account_type: a.account_type,
            balance: balance as i64,
            timestamp: timestamp.clone(),
        });
        i += 1;
    }
    Ok(out)
}

/// `i` is the first row of `accounts` with the given id.
pub open spec fn first_with_id(accounts: Seq<AccountRow>, id: i64, i: int) -> bool {
    0 <= i < accounts.len() && accounts[i].id == id && forall|k: int|
        0 <= k < i ==> (#[trigger] accounts[k]).id != id
}

/// Totals the debits and credits of one account. No account row with the id is
/// a not-found error; a total that an `i64` cannot hold is a storage error.
pub fn account_detail_query(account_id: i64, accounts: &Vec<AccountRow>, entries: &Vec<EntryRow>, timestamp: &String) -> (r:
    Result<AccountDetailResult, Error>)
    ensures
        (forall|i: int| 0 <= i < accounts@.len() ==> (#[trigger] accounts@[i]).id != account_id) <==> (r matches Err(
            e,
        ) && e is NotFoundError),
        r is Ok <==> (exists|i: int| 0 <= i < accounts@.len() && (#[trigger] accounts@[i]).id == account_id)
            && fits_i64(debits_of(entries@, account_id)) && fits_i64(credits_of(entries@, account_id)),
        r matches Err(e) ==> e is NotFoundError || e is StorageError,
        r matches Ok(d) ==> exists|i: int|
            first_with_id(accounts@, account_id, i) && d.account_name@ == accounts@[i].name@
                && d.account_type == accounts@[i].account_type,
        r matches Ok(d) ==> d.total_debits == debits_of(entries@, account_id) && d.total_credits
            == credits_of(entries@, account_id) && d.timestamp@ == timestamp@,
{
    let mut i: usize = 0;
    while i < accounts.len()
        invariant
            i <= accounts@.len(),
            forall|k: int| 0 <= k < i ==> (#[trigger] accounts@[k]).id != account_id,
        decreases accounts@.len() - i,
    {
        if accounts[i].id == account_id {
            let a = &accounts[i];
            assert(first_with_id(accounts@, account_id, i as int));
            let (debits, credits) = entry_totals(entries, account_id);
            if debits > i64::MAX as i128 || credits > i64::MAX as i128 {
                return Err(Error::StorageError(String::from_str("integer overflow")));
            }
            proof {
                lemma_balance_split(entries@, account_id);
            }
            return Ok(AccountDetailResult {
                account_name: a.name.clone(),
                account_type: a.account_type,
                total_debits: debits as i64,
                total_credits: credits as i64,
                timestamp: timestamp.clone(),
            });
        }
        i += 1;
    }
    Err(Error::NotFoundError(String::from_str("no such account")))
}

} // verus!

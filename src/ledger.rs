//! The rules of the ledger: what makes a journal valid, how an account is
//! created and numbered, and how stored rows become account balances.
use vstd::prelude::*;
use vstd::string::*;

use crate::account::{sequence_setting_name, AccountType};
use crate::error::Error;
use crate::query::{
    account_detail_query, account_list_query, balance_of, credits_of, debits_of, fits_i64, first_with_id,
    lemma_balance_split, AccountRow, EntryRow,
};

verus! {

/// The longest account name or journal narrative, in characters.
pub const MAX_TEXT_LEN: usize = 140;

/// The smallest account id that a caller may choose.
pub const MIN_ACCOUNT_ID: i64 = 1;

/// The largest account id that a caller may choose.
pub const MAX_ACCOUNT_ID: i64 = 999;

/// One signed amount against one account: positive is a debit, negative a credit.
#[derive(Clone, Copy, Debug, PartialEq, Eq, Structural)]
pub struct JournalEntry {
    pub account: i64,
    pub amount: i64,
}

/// A narrated group of entries that is posted as one unit of a batch.
pub struct Journal {
    pub unstructured_narrative: String,
    pub entries: Vec<JournalEntry>,
}

/// The sum of the amounts of a run of entries.
pub open spec fn entries_total(es: Seq<JournalEntry>) -> int
    decreases es.len(),
{
    if es.len() == 0 {
        0
    } else {
        entries_total(es.drop_last()) + es.last().amount
    }
}

/// The narrative is short enough.
pub open spec fn narrative_fits(j: Journal) -> bool {
    j.unstructured_narrative@.len() <= MAX_TEXT_LEN
}

/// The entries of the journal sum to zero.
pub open spec fn balanced(j: Journal) -> bool {
    entries_total(j.entries@) == 0
}

/// A journal that may be posted.
pub open spec fn journal_valid(j: Journal) -> bool {
    narrative_fits(j) && balanced(j)
}

/// Every journal of the batch may be posted.
pub open spec fn batch_valid(js: Seq<Journal>) -> bool {
    forall|i: int| 0 <= i < js.len() ==> journal_valid(#[trigger] js[i])
}

/// The error that an invalid journal is reported with: a long narrative is
/// found before an imbalance.
pub open spec fn reports_fault(e: Error, j: Journal) -> bool {
    if !narrative_fits(j) {
        e is InstructionError
    } else {
        e is JournalBalanceError
    }
}

/// `e` reports the first invalid journal of `js`.
pub open spec fn reports_first_fault(e: Error, js: Seq<Journal>) -> bool {
    exists|i: int|
        0 <= i < js.len() && (forall|k: int| 0 <= k < i ==> journal_valid(#[trigger] js[k]))
            && !journal_valid(#[trigger] js[i]) && reports_fault(e, js[i])
}

/// 2^63: the magnitude bound of one `i64`.
pub open spec fn magnitude() -> int {
    0x8000_0000_0000_0000
}

/// An `i128` accumulator over at most `k` amounts of `i64` stays within `k * 2^63`,
/// so one more amount cannot overflow it.
pub proof fn lemma_accumulate_fits(k: int, len: int, acc: int, x: int)
    requires
        0 <= k < len <= usize::MAX,
        -(k * magnitude()) <= acc <= k * magnitude(),
        -magnitude() <= x <= magnitude(),
    ensures
        -((k + 1) * magnitude()) <= acc + x <= (k + 1) * magnitude(),
        i128::MIN <= acc + x <= i128::MAX,
{
    assert((k + 1) * magnitude() == k * magnitude() + magnitude()) by (nonlinear_arith);
    assert((k + 1) * magnitude() <= usize::MAX * magnitude()) by (nonlinear_arith)
        requires
            k + 1 <= usize::MAX,
    ;
}

/// The exact sum of the amounts of a journal's entries.
pub fn journal_total(entries: &Vec<JournalEntry>) -> (r: i128)
    ensures
        r == entries_total(entries@),
{
    let mut acc: i128 = 0;
    let mut i: usize = 0;
    while i < entries.len()
        invariant
            i <= entries@.len(),
            acc == entries_total(entries@.subrange(0, i as int)),
            -(i * magnitude()) <= acc <= i * magnitude(),
        decreases entries@.len() - i,
    {
        let amount = entries[i].amount;
        proof {
            lemma_accumulate_fits(i as int, entries@.len() as int, acc as int, amount as int);
            assert(entries@.subrange(0, i + 1).drop_last() =~= entries@.subrange(0, i as int));
        }
        acc = acc + amount as i128;
        i += 1;
    }
    assert(entries@.subrange(0, i as int) =~= entries@);
    acc
}

/// Checks one journal: the narrative length first, then the balance.
pub fn validate_journal(journal: &Journal) -> (r: Result<(), Error>)
    ensures
        r is Ok <==> journal_valid(*journal),
        r matches Err(e) ==> reports_fault(e, *journal),
{
    if journal.unstructured_narrative.as_str().unicode_len() > MAX_TEXT_LEN {
        return Err(Error::InstructionError(String::from_str("unstructured narrative over 140 chars")));
    }
    if journal_total(&journal.entries) != 0 {
        return Err(Error::JournalBalanceError);
    }
    Ok(())
}

/// Checks every journal of a batch in order, reporting the first that is invalid.
pub fn validate_batch(journals: &Vec<Journal>) -> (r: Result<(), Error>)
    ensures
        r is Ok <==> batch_valid(journals@),
        r matches Err(e) ==> reports_first_fault(e, journals@),
{
    let mut i: usize = 0;
    while i < journals.len()
        invariant
            i <= journals@.len(),
            forall|k: int| 0 <= k < i ==> journal_valid(#[trigger] journals@[k]),
        decreases journals@.len() - i,
    {
        let r = validate_journal(&journals[i]);
        if let Err(e) = r {
            assert(!batch_valid(journals@));
            assert(reports_first_fault(e, journals@)) by {
                assert(!journal_valid(journals@[i as int]));
            }
            return Err(e);
        }
        i += 1;
    }
    Ok(())
}

/// Where the id of a new account comes from.
pub enum AccountIdSource {
    /// The caller chose the id.
    Given(i64),
    /// The id is the current value of the named sequence setting.
    Sequence(String),
}

/// Checks the request to create an account and says where its id comes from.
///
/// A chosen id must lie in `1..=999`; the name may have at most 140 characters.
/// An id drawn from a type's sequence is not held to that range. A chosen id
/// that is already taken is not looked for here: the store's uniqueness
/// constraint refuses it when the row is inserted, as a storage error.
pub fn account_new(account_id: Option<i64>, account_name: &String, account_type: &AccountType) -> (r:
    Result<AccountIdSource, Error>)
    ensures
        r is Ok <==> (account_id matches Some(id) ==> MIN_ACCOUNT_ID <= id <= MAX_ACCOUNT_ID)
            && account_name@.len() <= MAX_TEXT_LEN,
        r matches Err(e) ==> e is InstructionError,
        r matches Ok(source) ==> match account_id {
            Some(id) => source == AccountIdSource::Given(id),
            None => source matches AccountIdSource::Sequence(name) && name@
                == sequence_setting_name(*account_type),
        },
{
    if let Some(id) = account_id {
        if id < MIN_ACCOUNT_ID || id > MAX_ACCOUNT_ID {
            return Err(Error::InstructionError(String::from_str("account id out of range (1-999)")));
        }
    }
    if account_name.as_str().unicode_len() > MAX_TEXT_LEN {
        return Err(Error::InstructionError(String::from_str("account name over 140 chars")));
    }
    match account_id {
        Some(id) => Ok(AccountIdSource::Given(id)),
        None => Ok(AccountIdSource::Sequence(account_type.sequence_setting_name())),
    }
}

/// Reading `counter` from a sequence hands out `id` and leaves `next` behind.
pub open spec fn allocates(counter: i64, id: i64, next: i64) -> bool {
    id == counter && next == counter + 1
}

/// Draws an id from the current value of a type's sequence setting: the id is
/// that value, and the setting is to be left one higher.
pub fn allocate_account_id(counter: Option<i64>) -> (r: Result<(i64, i64), Error>)
    ensures
        r is Ok <==> (counter matches Some(c) && c < i64::MAX),
        counter is None ==> (r matches Err(e) && e is NotFoundError),
        counter == Some(i64::MAX) ==> (r matches Err(e) && e is InstructionError),
        r matches Ok((id, next)) ==> counter matches Some(c) && allocates(c, id, next),
{
    match counter {
        None => Err(Error::NotFoundError(String::from_str("account id sequence setting"))),
        Some(c) => {
            if c == i64::MAX {
                Err(Error::InstructionError(String::from_str("account id sequence exhausted")))
            } else {
                Ok((c, c + 1))
            }
        },
    }
}

/// Allocations of one type, run one after another (as the store's transactions
/// serialise them), each reading the value the one before left behind, hand out
/// distinct ids: the `n` ids are exactly `c, c+1, ..., c+n-1` for the starting
/// value `c`, and the sequence is left at `c+n`.
pub proof fn lemma_allocations_distinct(counters: Seq<i64>, ids: Seq<i64>)
    requires
        counters.len() == ids.len() + 1,
        forall|k: int| 0 <= k < ids.len() ==> allocates(counters[k], #[trigger] ids[k], counters[k + 1]),
    ensures
        forall|i: int, j: int| 0 <= i < j < ids.len() ==> ids[i] != ids[j],
        forall|k: int| 0 <= k < ids.len() ==> #[trigger] ids[k] == counters[0] + k,
        counters[ids.len() as int] == counters[0] + ids.len(),
{
    assert forall|k: int| 0 <= k < ids.len() implies #[trigger] ids[k] == counters[0] + k by {
        lemma_allocation_offset(counters, ids, k);
    }
    if ids.len() > 0 {
        lemma_allocation_offset(counters, ids, ids.len() - 1);
    }
}

proof fn lemma_allocation_offset(counters: Seq<i64>, ids: Seq<i64>, k: int)
    requires
        counters.len() == ids.len() + 1,
        forall|k: int| 0 <= k < ids.len() ==> allocates(counters[k], #[trigger] ids[k], counters[k + 1]),
        0 <= k < ids.len(),
    ensures
        ids[k] == counters[0] + k,
        counters[k + 1] == counters[0] + k + 1,
    decreases k,
{
    assert(allocates(counters[k], ids[k], counters[k + 1]));
    if k > 0 {
        lemma_allocation_offset(counters, ids, k - 1);
    }
}

/// One account with its balance, as listed.
pub struct AccountSummary {
    pub account_id: i64,
    pub account_name: String,
    pub account_type: AccountType,
    /// Positive for a debit balance, negative for a credit balance.
    pub account_balance: i64,
    /// When the listing was made; the same on every row of one listing.
    pub timestamp: String,
}

impl Clone for AccountSummary {
    fn clone(&self) -> (r: Self)
        ensures
            r == *self,
    {
        AccountSummary {
            account_id: self.account_id,
            account_name: self.account_name.clone(),
            account_type: self.account_type,
            account_balance: self.account_balance,
            timestamp: self.timestamp.clone(),
        }
    }
}

/// The debit and credit totals of one account.
pub struct AccountDetail {
    pub account_id: i64,
    pub account_name: String,
    pub account_type: AccountType,
    /// The magnitude of the sum of all credits.
    pub total_credits: i64,
    /// The sum of all debits.
    pub total_debits: i64,
    /// Debits less credits.
    pub balance: i64,
    pub timestamp: String,
}

/// The listing row for a stored account.
pub open spec fn lists(s: AccountSummary, a: AccountRow, es: Seq<EntryRow>, timestamp: Seq<char>) -> bool {
    &&& s.account_id == a.id
    &&& s.account_name@ == a.name@
    &&& s.account_type == a.account_type
    &&& s.account_balance == balance_of(es, a.id)
    &&& s.timestamp@ == timestamp
}

/// `v` lists every stored account, in order, with its balance.
pub open spec fn listing(v: Seq<AccountSummary>, accounts: Seq<AccountRow>, es: Seq<EntryRow>, timestamp: Seq<char>) -> bool {
    v.len() == accounts.len() && forall|i: int|
        0 <= i < accounts.len() ==> lists(#[trigger] v[i], accounts[i], es, timestamp)
}

/// Every balance of the listing can be held in an `i64`.
pub open spec fn listable(accounts: Seq<AccountRow>, es: Seq<EntryRow>) -> bool {
    forall|i: int| 0 <= i < accounts.len() ==> fits_i64(balance_of(es, #[trigger] accounts[i].id))
}

/// Lists every account with its balance, in the order of `accounts`, stamped
/// with `timestamp`. Accounts without entries have balance 0.
pub fn account_list(accounts: &Vec<AccountRow>, entries: &Vec<EntryRow>, timestamp: &String) -> (r: Result<
    Vec<AccountSummary>,
    Error,
>)
    ensures
        r is Ok <==> listable(accounts@, entries@),
        r matches Err(e) ==> e is StorageError,
        r matches Ok(v) ==> listing(v@, accounts@, entries@, timestamp@),
{
    let results = account_list_query(accounts, entries, timestamp)?;
    let mut out: Vec<AccountSummary> = Vec::new();
    let mut i: usize = 0;
    while i < results.len()
        invariant
            results@.len() == accounts@.len(),
            forall|k: int|
                0 <= k < accounts@.len() ==> crate::query::summarizes(
                    #[trigger] results@[k],
                    accounts@[k],
                    entries@,
                    timestamp@,
                ),
            i <= results@.len(),
            out@.len() == i,
            forall|k: int| 0 <= k < i ==> lists(#[trigger] out@[k], accounts@[k], entries@, timestamp@),
        decreases results@.len() - i,
    {
        let r = &results[i];
        out.push(AccountSummary {
            account_id: r.account_id,
            account_name: r.account_name.clone(),
            account_type: r.account_type,
            account_balance: r.balance,
            timestamp: r.timestamp.clone(),
        });
        i += 1;
    }
    Ok(out)
}

/// Reads do not change balances: two listings of the same rows agree on every
/// account and balance; only their timestamps may differ.
pub proof fn lemma_listing_repeatable(
    accounts: Seq<AccountRow>,
    es: Seq<EntryRow>,
    t1: Seq<char>,
    t2: Seq<char>,
    v1: Seq<AccountSummary>,
    v2: Seq<AccountSummary>,
)
    requires
        listing(v1, accounts, es, t1),
        listing(v2, accounts, es, t2),
    ensures
        v1.len() == v2.len(),
        forall|i: int|
            0 <= i < v1.len() ==> (#[trigger] v1[i]).account_balance == v2[i].account_balance
                && v1[i].account_id == v2[i].account_id && v1[i].account_name@ == v2[i].account_name@
                && v1[i].account_type == v2[i].account_type,
{
    assert forall|i: int| 0 <= i < v1.len() implies (#[trigger] v1[i]).account_balance
        == v2[i].account_balance && v1[i].account_id == v2[i].account_id && v1[i].account_name@
        == v2[i].account_name@ && v1[i].account_type == v2[i].account_type by {
        assert(lists(v1[i], accounts[i], es, t1));
        assert(lists(v2[i], accounts[i], es, t2));
    }
}

/// The debit and credit totals of one account and its balance. No such account
/// is a not-found error; a total that an `i64` cannot hold is a storage error.
pub fn account_detail(account_id: i64, accounts: &Vec<AccountRow>, entries: &Vec<EntryRow>, timestamp: &String) -> (r:
    Result<AccountDetail, Error>)
    ensures
        (forall|i: int| 0 <= i < accounts@.len() ==> (#[trigger] accounts@[i]).id != account_id) <==> (r matches Err(
            e,
        ) && e is NotFoundError),
        r is Ok <==> (exists|i: int| 0 <= i < accounts@.len() && (#[trigger] accounts@[i]).id == account_id)
            && fits_i64(debits_of(entries@, account_id)) && fits_i64(credits_of(entries@, account_id)),
        r matches Err(e) ==> e is NotFoundError || e is StorageError,
        r matches Ok(d) ==> exists|i: int|
            first_with_id(accounts@, account_id, i) && d.account_name@ == accounts@[i].name@
                && d.account_type == accounts@[i].account_type,
        r matches Ok(d) ==> d.account_id == account_id && d.total_debits == debits_of(entries@, account_id)
            && d.total_credits == credits_of(entries@, account_id) && d.balance == balance_of(
            entries@,
            account_id,
        ) && d.timestamp@ == timestamp@,
{
    let result = account_detail_query(account_id, accounts, entries, timestamp)?;
    proof {
        lemma_balance_split(entries@, account_id);
    }
    Ok(AccountDetail {
        account_id,
        account_name: result.account_name,
        account_type: result.account_type,
        total_credits: result.total_credits,
        total_debits: result.total_debits,
        balance: result.total_debits - result.total_credits,
        timestamp: result.timestamp,
    })
}

/// The entry rows that posting a journal's entries appends to the log, in order.
pub open spec fn entry_rows(es: Seq<JournalEntry>) -> Seq<EntryRow> {
    es.map_values(|e: JournalEntry| EntryRow { account_id: e.account, amount: e.amount })
}

proof fn lemma_totals_append(es: Seq<EntryRow>, more: Seq<EntryRow>, id: i64)
    ensures
        debits_of(es + more, id) == debits_of(es, id) + debits_of(more, id),
        credits_of(es + more, id) == credits_of(es, id) + credits_of(more, id),
        balance_of(es + more, id) == balance_of(es, id) + balance_of(more, id),
    decreases more.len(),
{
    if more.len() == 0 {
        assert(es + more =~= es);
    } else {
        assert((es + more).drop_last() =~= es + more.drop_last());
        lemma_totals_append(es, more.drop_last(), id);
    }
}

/// Posting a journal that debits `a` by 500 and credits `b` by 500 to a log
/// with no entries on either account leaves `a` with debits 500, credits 0 and
/// balance 500, and `b` with debits 0, credits 500 and balance -500.
pub proof fn lemma_post_then_detail(log: Seq<EntryRow>, j: Journal, a: i64, b: i64)
    requires
        a != b,
        j.entries@ == seq![JournalEntry { account: a, amount: 500 }, JournalEntry { account: b, amount: -500i64 }],
        debits_of(log, a) == 0 && credits_of(log, a) == 0,
        debits_of(log, b) == 0 && credits_of(log, b) == 0,
    ensures
        balanced(j),
        debits_of(log + entry_rows(j.entries@), a) == 500,
        credits_of(log + entry_rows(j.entries@), a) == 0,
        balance_of(log + entry_rows(j.entries@), a) == 500,
        debits_of(log + entry_rows(j.entries@), b) == 0,
        credits_of(log + entry_rows(j.entries@), b) == 500,
        balance_of(log + entry_rows(j.entries@), b) == -500,
{
    let rows = entry_rows(j.entries@);
    let e0 = JournalEntry { account: a, amount: 500 };
    let e1 = JournalEntry { account: b, amount: -500i64 };
    let r0 = EntryRow { account_id: a, amount: 500 };
    let r1 = EntryRow { account_id: b, amount: -500i64 };
    assert(rows =~= seq![r0, r1]);
    assert(seq![r0, r1].drop_last() =~= seq![r0]);
    assert(seq![r0].drop_last() =~= Seq::<EntryRow>::empty());
    assert(seq![e0, e1].drop_last() =~= seq![e0]);
    assert(seq![e0].drop_last() =~= Seq::<JournalEntry>::empty());
    assert(seq![e0].last() == e0 && seq![r0].last() == r0);
    assert(entries_total(Seq::<JournalEntry>::empty()) == 0);
    assert(debits_of(Seq::<EntryRow>::empty(), a) == 0 && credits_of(Seq::<EntryRow>::empty(), a) == 0);
    assert(debits_of(Seq::<EntryRow>::empty(), b) == 0 && credits_of(Seq::<EntryRow>::empty(), b) == 0);
    assert(entries_total(seq![e0]) == 500);
    assert(debits_of(seq![r0], a) == 500 && credits_of(seq![r0], a) == 0);
    assert(debits_of(seq![r0], b) == 0 && credits_of(seq![r0], b) == 0);
    assert(debits_of(rows, a) == 500 && credits_of(rows, a) == 0);
    assert(debits_of(rows, b) == 0 && credits_of(rows, b) == 500);
    lemma_totals_append(log, rows, a);
    lemma_totals_append(log, rows, b);
    lemma_balance_split(log + rows, a);
    lemma_balance_split(log + rows, b);
}

} // verus!

//! Account types: the closed set of categories that decides where an account is
//! reported and which id sequence an auto-allocated account draws from.
use vstd::prelude::*;
use vstd::string::*;

use crate::error::Error;

verus! {

/// Ledger account type.
///
/// The type decides the report section an account appears in, and names the
/// per-type sequence that auto-allocated account ids are drawn from.
#[derive(Clone, Copy, Debug, PartialEq, Eq, Structural)]
pub enum AccountType {
    /// Asset account representing cash in hand or at bank.
    Cash,
    /// Asset account representing a current asset.
    CurrentAsset,
    /// Liability account representing a current liability.
    CurrentLiability,
    /// Equity account.
    Equity,
    /// Expense account representing direct expenses (cost of sales).
    DirectExpense,
    /// Expense account representing indirect expenses (overheads).
    IndirectExpense,
    /// Asset account representing inventory.
    Inventory,
    /// Asset account representing a non-current asset.
    NonCurrentAsset,
    /// Liability account representing a non-current liability.
    NonCurrentLiability,
    /// Revenue account representing income from sources other than normal business activity.
    OtherIncome,
    /// Asset account representing prepayments for a future accounting period.
    Prepayments,
    /// Revenue account representing income from normal business activity.
    Revenue,
    /// Virtual account used internally, such as unrealised exchange gains or retained profit.
    System,
}

/// Incoming text names no account type.
#[derive(Clone, Copy, Debug, PartialEq, Eq, Structural)]
pub struct ParseAccountTypeError;

/// The name of each account type, as it is written in incoming text and in
/// the id-sequence setting.
pub open spec fn kind_name(t: AccountType) -> Seq<char> {
    match t {
        AccountType::Cash => "Cash"@,
        AccountType::CurrentAsset => "CurrentAsset"@,
        AccountType::CurrentLiability => "CurrentLiability"@,
        AccountType::Equity => "Equity"@,
        AccountType::DirectExpense => "DirectExpense"@,
        AccountType::IndirectExpense => "IndirectExpense"@,
        AccountType::Inventory => "Inventory"@,
        AccountType::NonCurrentAsset => "NonCurrentAsset"@,
        AccountType::NonCurrentLiability => "NonCurrentLiability"@,
        AccountType::OtherIncome => "OtherIncome"@,
        AccountType::Prepayments => "Prepayments"@,
        AccountType::Revenue => "Revenue"@,
        AccountType::System => "System"@,
    }
}

/// The name of the setting that holds the next auto-allocated id for a type.
pub open spec fn sequence_setting_name(t: AccountType) -> Seq<char> {
    "nextAccount"@ + kind_name(t)
}

/// The name under which the store keeps each account type.
pub open spec fn stored_kind_name(t: AccountType) -> Seq<char> {
    match t {
        AccountType::Cash => "cash"@,
        AccountType::CurrentAsset => "currentAsset"@,
        AccountType::CurrentLiability => "currentLiability"@,
        AccountType::Equity => "equity"@,
        AccountType::DirectExpense => "directExpense"@,
        AccountType::IndirectExpense => "indirectExpense"@,
        AccountType::Inventory => "inventory"@,
        AccountType::NonCurrentAsset => "nonCurrentAsset"@,
        AccountType::NonCurrentLiability => "nonCurrentLiability"@,
        AccountType::OtherIncome => "otherIncome"@,
        AccountType::Prepayments => "prepayments"@,
        AccountType::Revenue => "revenue"@,
        AccountType::System => "system"@,
    }
}

/// Character-wise equality of two string slices.
fn str_eq(a: &str, b: &str) -> (r: bool)
    ensures
        r == (a@ == b@),
{
    let n = a.unicode_len();
    let m = b.unicode_len();
    if n != m {
        return false;
    }
    let mut i: usize = 0;
    while i < n
        invariant
            n == a@.len(),
            m == b@.len(),
            n == m,
            i <= n,
            forall|k: int| 0 <= k < i ==> a@[k] == b@[k],
        decreases n - i,
    {
        if a.get_char(i) != b.get_char(i) {
            return false;
        }
        i += 1;
    }
    assert(a@ =~= b@);
    true
}

impl AccountType {
    /// Parses the exact name of a type (case-sensitive, untrimmed); any other
    /// text is refused.
    pub fn parse(s: &str) -> (r: Result<AccountType, ParseAccountTypeError>)
        ensures
            r matches Ok(t) ==> kind_name(t) == s@,
            r is Err <==> forall|t: AccountType| kind_name(t) != s@,
    {
        let r = if str_eq(s, "Cash") {
            Ok(AccountType::Cash)
        } else if str_eq(s, "CurrentAsset") {
            Ok(AccountType::CurrentAsset)
        } else if str_eq(s, "CurrentLiability") {
            Ok(AccountType::CurrentLiability)
        } else if str_eq(s, "DirectExpense") {
            Ok(AccountType::DirectExpense)
        } else if str_eq(s, "Equity") {
            Ok(AccountType::Equity)
        } else if str_eq(s, "IndirectExpense") {
            Ok(AccountType::IndirectExpense)
        } else if str_eq(s, "Inventory") {
            Ok(AccountType::Inventory)
        } else if str_eq(s, "NonCurrentAsset") {
            Ok(AccountType::NonCurrentAsset)
        } else if str_eq(s, "NonCurrentLiability") {
            Ok(AccountType::NonCurrentLiability)
        } else if str_eq(s, "OtherIncome") {
            Ok(AccountType::OtherIncome)
        } else if str_eq(s, "Prepayments") {
            Ok(AccountType::Prepayments)
        } else if str_eq(s, "Revenue") {
            Ok(AccountType::Revenue)
        } else if str_eq(s, "System") {
            Ok(AccountType::System)
        } else {
            Err(ParseAccountTypeError)
        };
        proof {
            if let Ok(t) = r {
                assert(kind_name(t) == s@);
            }
        }
        r
    }

    /// The type's name.
    pub fn name(&self) -> (r: String)
        ensures
            r@ == kind_name(*self),
    {
        let s = match self {
            AccountType::Cash => "Cash",
            AccountType::CurrentAsset => "CurrentAsset",
            AccountType::CurrentLiability => "CurrentLiability",
            AccountType::Equity => "Equity",
            AccountType::DirectExpense => "DirectExpense",
            AccountType::IndirectExpense => "IndirectExpense",
            AccountType::Inventory => "Inventory",
            AccountType::NonCurrentAsset => "NonCurrentAsset",
            AccountType::NonCurrentLiability => "NonCurrentLiability",
            AccountType::OtherIncome => "OtherIncome",
            AccountType::Prepayments => "Prepayments",
            AccountType::Revenue => "Revenue",
            AccountType::System => "System",
        };
        String::from_str(s)
    }

    /// The name under which the store keeps the type.
    pub fn stored_name(&self) -> (r: String)
        ensures
            r@ == stored_kind_name(*self),
    {
        let s = match self {
            AccountType::Cash => "cash",
            AccountType::CurrentAsset => "currentAsset",
            AccountType::CurrentLiability => "currentLiability",
            AccountType::Equity => "equity",
            AccountType::DirectExpense => "directExpense",
            AccountType::IndirectExpense => "indirectExpense",
            AccountType::Inventory => "inventory",
            AccountType::NonCurrentAsset => "nonCurrentAsset",
            AccountType::NonCurrentLiability => "nonCurrentLiability",
            AccountType::OtherIncome => "otherIncome",
            AccountType::Prepayments => "prepayments",
            AccountType::Revenue => "revenue",
            AccountType::System => "system",
        };
        String::from_str(s)
    }

    /// Reads a type back from the store. Every type can be read; a name the
    /// store should not hold is a storage error.
    pub fn from_stored(s: &str) -> (r: Result<AccountType, Error>)
        ensures
            r matches Ok(t) ==> stored_kind_name(t) == s@,
            r is Err <==> forall|t: AccountType| stored_kind_name(t) != s@,
            r matches Err(e) ==> e is StorageError,
    {
        let r = if str_eq(s, "cash") {
            Ok(AccountType::Cash)
        } else if str_eq(s, "currentAsset") {
            Ok(AccountType::CurrentAsset)
        } else if str_eq(s, "currentLiability") {
            Ok(AccountType::CurrentLiability)
        } else if str_eq(s, "equity") {
            Ok(AccountType::Equity)
        } else if str_eq(s, "directExpense") {
            Ok(AccountType::DirectExpense)
        } else if str_eq(s, "indirectExpense") {
            Ok(AccountType::IndirectExpense)
        } else if str_eq(s, "inventory") {
            Ok(AccountType::Inventory)
        } else if str_eq(s, "nonCurrentAsset") {
            Ok(AccountType::NonCurrentAsset)
        } else if str_eq(s, "nonCurrentLiability") {
            Ok(AccountType::NonCurrentLiability)
        } else if str_eq(s, "otherIncome") {
            Ok(AccountType::OtherIncome)
        } else if str_eq(s, "prepayments") {
            Ok(AccountType::Prepayments)
        } else if str_eq(s, "revenue") {
            Ok(AccountType::Revenue)
        } else if str_eq(s, "system") {
            Ok(AccountType::System)
        } else {
            Err(Error::StorageError(String::from_str("unknown account type in store")))
        };
        proof {
            if let Ok(t) = r {
                assert(stored_kind_name(t) == s@);
            }
        }
        r
    }

    /// The name of the setting that holds the next auto-allocated id of this type.
    pub fn sequence_setting_name(&self) -> (r: String)
        ensures
            r@ == sequence_setting_name(*self),
    {
        let prefix = String::from_str("nextAccount");
        let name = self.name();
        prefix.concat(name.as_str())
    }
}

impl std::str::FromStr for AccountType {
    type Err = ParseAccountTypeError;

    fn from_str(s: &str) -> (r: Result<Self, Self::Err>)
        ensures
            r matches Ok(t) ==> kind_name(t) == s@,
            r is Err <==> forall|t: AccountType| kind_name(t) != s@,
    {
        AccountType::parse(s)
    }
}

} // verus!

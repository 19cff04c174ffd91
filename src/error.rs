use vstd::prelude::*;
use vstd::string::*;

verus! {

/// Failures reported by the bookkeeping engine.
#[derive(Clone, Debug, PartialEq, Eq)]
pub enum Error {
    /// An input violates a static constraint (an id range, a name or narrative length).
    InstructionError(String),
    /// A journal's entries do not sum to zero.
    JournalBalanceError,
    /// A referenced account or setting does not exist.
    NotFoundError(String),
    /// The backing store rejected or failed a read or a write.
    StorageError(String),
}

/// The text that describes an error.
pub open spec fn error_message(e: Error) -> Seq<char> {
    match e {
        Error::InstructionError(s) => "instruction contained invalid value: "@ + s@,
        Error::JournalBalanceError => "journal entry does not balance"@,
        Error::NotFoundError(s) => "not found: "@ + s@,
        Error::StorageError(s) => "storage error: "@ + s@,
    }
}

impl Error {
    /// The text that describes the error.
    pub fn message(&self) -> (r: String)
        ensures
            r@ == error_message(*self),
    {
        match self {
            Error::InstructionError(s) => String::from_str("instruction contained invalid value: ").concat(s.as_str()),
            Error::JournalBalanceError => String::from_str("journal entry does not balance"),
            Error::NotFoundError(s) => String::from_str("not found: ").concat(s.as_str()),
            Error::StorageError(s) => String::from_str("storage error: ").concat(s.as_str()),
        }
    }
}

} // verus!

//! A double-entry bookkeeping engine: journals of balanced entries are posted
//! in batches against a chart of accounts, and balances and a balance sheet are
//! derived from the append-only entry log.
pub mod account;
pub mod error;
pub mod ledger;
pub mod posting;
pub mod query;
pub mod report;
pub mod request;

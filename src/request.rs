//! The shape in which a journal arrives to be posted.
use vstd::prelude::*;
use vstd::string::*;

use crate::ledger::{Journal, JournalEntry};

verus! {

/// One entry of an incoming journal.
#[derive(Clone, Copy, Debug, PartialEq, Eq, Structural)]
pub struct JournalCreateEntryData {
    pub account: i64,
    pub amount: i64,
}

/// An incoming journal: the narrative may be left out.
pub struct JournalCreateData {
    pub unstructured_narrative: Option<String>,
    pub entries: Vec<JournalCreateEntryData>,
}

impl JournalCreateData {
    /// The journal to post: a missing narrative is empty, and the entries keep
    /// their order.
    pub fn into_journal(self) -> (r: Journal)
        ensures
            r.unstructured_narrative@ == match self.unstructured_narrative {
                Some(n) => n@,
                None => Seq::<char>::empty(),
            },
            r.entries@.len() == self.entries@.len(),
            forall|i: int|
                0 <= i < self.entries@.len() ==> (#[trigger] r.entries@[i]).account == self.entries@[i].account
                    && r.entries@[i].amount == self.entries@[i].amount,
    {
        let narrative = match self.unstructured_narrative {
            Some(n) => n,
            None => String::new(),
        };
        let mut entries: Vec<JournalEntry> = Vec::new();
        let mut i: usize = 0;
        while i < self.entries.len()
            invariant
                i <= self.entries@.len(),
                entries@.len() == i,
                forall|k: int|
                    0 <= k < i ==> (#[trigger] entries@[k]).account == self.entries@[k].account
                        && entries@[k].amount == self.entries@[k].amount,
            decreases self.entries@.len() - i,
        {
            let e = self.entries[i];
            entries.push(JournalEntry { account: e.account, amount: e.amount });
            i += 1;
        }
        Journal { unstructured_narrative: narrative, entries }
    }
}

} // verus!

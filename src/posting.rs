//! Posting a batch of journals: the checks that come before any write, and the
//! order of writes inside the one transaction that commits the batch.
//!
//! The store is driven from outside: a [`BatchPosting`] names the next write
//! as a [`StoreAction`], and is told how it went by a [`StoreEvent`].
use vstd::prelude::*;

use crate::error::Error;
use crate::ledger::{
    batch_valid, entries_total, journal_valid, reports_first_fault, validate_batch, Journal, JournalEntry,
    MAX_TEXT_LEN,
};

verus! {

/// The next write of a posting, or its end.
pub enum StoreAction {
    /// Insert the batch row, dated today.
    InsertBatch,
    /// Insert a journal row of the batch.
    InsertJournal { batch_id: i64, unstructured_narrative: String },
    /// Insert an entry row of the journal.
    InsertEntry { journal_id: i64, account: i64, amount: i64 },
    /// Every row is written: commit the transaction.
    Commit,
    /// A write failed: roll the transaction back and report the error.
    Rollback(Error),
}

/// How the last write went.
pub enum StoreEvent {
    /// The row was inserted with this id.
    Inserted(i64),
    /// The store refused or failed the write.
    Failed(String),
}

/// Where a posting stands.
#[derive(Clone, Copy, Debug, PartialEq, Eq, Structural)]
pub enum Phase {
    /// Waiting for the id of the batch row.
    AwaitBatch,
    /// Waiting for the id of the row of journal `j`.
    AwaitJournal(usize),
    /// Waiting for the row of entry `e` of journal `j`.
    AwaitEntry(usize, usize),
    /// Every row was written; the commit was asked for.
    Committed,
    /// A write failed; the rollback was asked for.
    Aborted,
}

/// The phase that asks for journal `j`, or for the commit after the last one.
pub open spec fn journal_start(js: Seq<Journal>, j: int) -> Phase {
    if j < js.len() {
        Phase::AwaitJournal(j as usize)
    } else {
        Phase::Committed
    }
}

/// The phase that asks for entry `e` of journal `j`, or moves to the next journal.
pub open spec fn entry_start(js: Seq<Journal>, j: int, e: int) -> Phase {
    if e < js[j].entries@.len() {
        Phase::AwaitEntry(j as usize, e as usize)
    } else {
        journal_start(js, j + 1)
    }
}

/// The phase after the awaited row was written.
pub open spec fn next_phase(js: Seq<Journal>, p: Phase) -> Phase {
    match p {
        Phase::AwaitBatch => journal_start(js, 0),
        Phase::AwaitJournal(j) => entry_start(js, j as int, 0),
        Phase::AwaitEntry(j, e) => entry_start(js, j as int, e + 1),
        _ => p,
    }
}

/// The posting still waits for a write.
pub open spec fn in_progress(p: Phase) -> bool {
    p is AwaitBatch || p is AwaitJournal || p is AwaitEntry
}

/// One batch of valid journals being written.
pub struct BatchPosting {
    journals: Vec<Journal>,
    batch_id: i64,
    journal_ids: Vec<i64>,
    phase: Phase,
}

impl BatchPosting {
    /// The journals of the batch, in order.
    pub closed spec fn journals(&self) -> Seq<Journal> {
        self.journals@
    }

    /// The id of the batch row, once it is written.
    pub closed spec fn batch_id(&self) -> i64 {
        self.batch_id
    }

    /// The ids of the journal rows written so far, in order.
    pub closed spec fn journal_ids(&self) -> Seq<i64> {
        self.journal_ids@
    }

    /// Where the posting stands.
    pub closed spec fn phase(&self) -> Phase {
        self.phase
    }

    /// The journals are valid, and the ids written so far match the phase.
    pub closed spec fn wf(&self) -> bool {
        &&& batch_valid(self.journals@)
        &&& match self.phase {
            Phase::AwaitBatch => self.journal_ids@.len() == 0,
            Phase::AwaitJournal(j) => j < self.journals@.len() && self.journal_ids@.len() == j,
            Phase::AwaitEntry(j, e) => j < self.journals@.len() && e < self.journals@[j as int].entries@.len()
                && self.journal_ids@.len() == j + 1,
            Phase::Committed => self.journal_ids@.len() == self.journals@.len(),
            Phase::Aborted => true,
        }
    }

    /// `a` is the action that the phase asks for.
    pub open spec fn announces(&self, a: StoreAction) -> bool {
        match self.phase() {
            Phase::AwaitBatch => a is InsertBatch,
            Phase::AwaitJournal(j) => (a matches StoreAction::InsertJournal { batch_id, unstructured_narrative }
                && batch_id == self.batch_id() && unstructured_narrative@
                == self.journals()[j as int].unstructured_narrative@),
            Phase::AwaitEntry(j, e) => (a matches StoreAction::InsertEntry { journal_id, account, amount }
                && journal_id == self.journal_ids()[j as int] && account
                == self.journals()[j as int].entries@[e as int].account && amount
                == self.journals()[j as int].entries@[e as int].amount),
            Phase::Committed => a is Commit,
            Phase::Aborted => a is Rollback,
        }
    }

    /// The action that the current phase asks for.
    fn announce(&self) -> (a: StoreAction)
        requires
            self.wf(),
            !(self.phase() is Aborted),
        ensures
            self.announces(a),
    {
        match self.phase {
            Phase::AwaitBatch => StoreAction::InsertBatch,
            Phase::AwaitJournal(j) => StoreAction::InsertJournal {
                batch_id: self.batch_id,
                unstructured_narrative: self.journals[j].unstructured_narrative.clone(),
            },
            Phase::AwaitEntry(j, e) => {
                let entry = self.journals[j].entries[e];
                StoreAction::InsertEntry { journal_id: self.journal_ids[j], account: entry.account, amount: entry.amount }
            },
            Phase::Committed => StoreAction::Commit,
            Phase::Aborted => StoreAction::Rollback(Error::StorageError(String::new())),
        }
    }

    /// Moves to the phase that asks for journal `j`.
    fn start_journal(&mut self, j: usize)
        requires
            j <= old(self).journals@.len(),
            batch_valid(old(self).journals@),
            old(self).journal_ids@.len() == j,
        ensures
            final(self).wf(),
            final(self).phase == journal_start(old(self).journals@, j as int),
            final(self).journals == old(self).journals,
            final(self).batch_id == old(self).batch_id,
            final(self).journal_ids == old(self).journal_ids,
    {
        if j < self.journals.len() {
            self.phase = Phase::AwaitJournal(j);
        } else {
            self.phase = Phase::Committed;
        }
    }

    /// Moves to the phase that asks for entry `e` of journal `j`.
    fn start_entry(&mut self, j: usize, e: usize)
        requires
            j < old(self).journals@.len(),
            e <= old(self).journals@[j as int].entries@.len(),
            batch_valid(old(self).journals@),
            old(self).journal_ids@.len() == j + 1,
        ensures
            final(self).wf(),
            final(self).phase == entry_start(old(self).journals@, j as int, e as int),
            final(self).journals == old(self).journals,
            final(self).batch_id == old(self).batch_id,
            final(self).journal_ids == old(self).journal_ids,
    {
        let n = self.journals.len();
        if e < self.journals[j].entries.len() {
            self.phase = Phase::AwaitEntry(j, e);
        } else {
            assert(j + 1 <= n);
            self.start_journal(j + 1);
        }
    }

    /// Takes the outcome of the last write and names the next action.
    ///
    /// A written row moves the posting on: the batch id and each journal id are
    /// kept as they come. A failed write ends it with a rollback that carries the
    /// store's message as a storage error.
    pub fn step(&mut self, event: StoreEvent) -> (a: StoreAction)
        requires
            old(self).wf(),
            in_progress(old(self).phase()),
        ensures
            final(self).wf(),
            final(self).journals() == old(self).journals(),
            match event {
                StoreEvent::Inserted(id) => {
                    &&& final(self).phase() == next_phase(old(self).journals(), old(self).phase())
                    &&& final(self).batch_id() == if old(self).phase() is AwaitBatch {
                        id
                    } else {
                        old(self).batch_id()
                    }
                    &&& final(self).journal_ids() == if old(self).phase() is AwaitJournal {
                        old(self).journal_ids().push(id)
                    } else {
                        old(self).journal_ids()
                    }
                    &&& final(self).announces(a)
                },
                StoreEvent::Failed(msg) => {
                    &&& final(self).phase() == Phase::Aborted
                    &&& a == StoreAction::Rollback(Error::StorageError(msg))
                },
            },
    {
        match event {
            StoreEvent::Failed(msg) => {
                self.phase = Phase::Aborted;
                StoreAction::Rollback(Error::StorageError(msg))
            },
            StoreEvent::Inserted(id) => {
                match self.phase {
                    Phase::AwaitBatch => {
                        self.batch_id = id;
                        self.start_journal(0);
                    },
                    Phase::AwaitJournal(j) => {
                        self.journal_ids.push(id);
                        self.start_entry(j, 0);
                    },
                    Phase::AwaitEntry(j, e) => {
                        let m = self.journals[j].entries.len();
                        assert(e + 1 <= m);
                        self.start_entry(j, e + 1);
                    },
                    _ => {},
                }
                self.announce()
            },
        }
    }

    /// The id of the batch and of each of its journals, in the order given,
    /// once every row is written.
    pub fn into_ids(self) -> (r: (i64, Vec<i64>))
        requires
            self.wf(),
            self.phase() is Committed,
        ensures
            r.0 == self.batch_id(),
            r.1@ == self.journal_ids(),
            r.1@.len() == self.journals().len(),
    {
        (self.batch_id, self.journal_ids)
    }
}

/// Checks a batch of journals and, when every one is valid, starts its posting.
///
/// Each journal is checked on its own: its narrative may have at most 140
/// characters and its entries must sum to zero. The first invalid journal is
/// reported and nothing is written; otherwise the first action is to insert the
/// batch row.
pub fn batch_new(journals: Vec<Journal>) -> (r: Result<(BatchPosting, StoreAction), Error>)
    ensures
        r is Ok <==> batch_valid(journals@),
        r matches Err(e) ==> reports_first_fault(e, journals@),
        r matches Ok((p, a)) ==> p.wf() && p.journals() == journals@ && p.phase() is AwaitBatch
            && p.journal_ids().len() == 0 && a is InsertBatch,
{
    match validate_batch(&journals) {
        Err(e) => Err(e),
        Ok(()) => {
            let p = BatchPosting { journals, batch_id: 0, journal_ids: Vec::new(), phase: Phase::AwaitBatch };
            let a = p.announce();
            Ok((p, a))
        },
    }
}

/// Starts the posting of a batch that holds one journal; its id is the only
/// journal id of the batch.
pub fn journal_new(unstructured_narrative: String, entries: Vec<JournalEntry>) -> (r: Result<
    (BatchPosting, StoreAction),
    Error,
>)
    ensures
        r is Ok <==> unstructured_narrative@.len() <= MAX_TEXT_LEN && entries_total(entries@) == 0,
        r matches Err(e) ==> if unstructured_narrative@.len() > MAX_TEXT_LEN {
            e is InstructionError
        } else {
            e is JournalBalanceError
        },
        r matches Ok((p, a)) ==> p.wf() && p.journals().len() == 1 && p.journals()[0].unstructured_narrative
            == unstructured_narrative && p.journals()[0].entries == entries && p.phase() is AwaitBatch
            && a is InsertBatch,
{
    let journal = Journal { unstructured_narrative, entries };
    let journals = vec![journal];
    let r = batch_new(journals);
    proof {
        assert(journals@ =~= seq![journal]);
        if r is Err {
            let e = r->Err_0;
            let i = choose|i: int|
                0 <= i < journals@.len() && (forall|k: int| 0 <= k < i ==> journal_valid(#[trigger] journals@[k]))
                    && !journal_valid(#[trigger] journals@[i]) && crate::ledger::reports_fault(e, journals@[i]);
            assert(i == 0);
        }
        if !batch_valid(journals@) {
            assert(!journal_valid(journals@[0]));
        }
    }
    r
}

} // verus!

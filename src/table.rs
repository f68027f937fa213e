use vstd::prelude::*;

use crate::entry::{
    LogEntry, StorageError, created_non_increasing, has_id, ids_distinct, is_listing_of, newest_first,
};
use crate::reader::{ReadPlan, select, yield_count};
use crate::request::NewLog;
use crate::writer::new_row;

verus! {

broadcast use vstd::seq_lib::group_to_multiset_ensures;

/// An in-memory log table with the store's semantics: `id` is the primary
/// key, rows are only ever added, and each insert or read is one step.
pub struct LogTable {
    rows: Vec<LogEntry>,
}

impl View for LogTable {
    type V = Seq<LogEntry>;

    closed spec fn view(&self) -> Seq<LogEntry> {
        self.rows@
    }
}

/// Adding a row whose id is new keeps every id distinct, and the new id
/// differs from each id issued before it.
pub proof fn lemma_new_id_stays_unique(before: Seq<LogEntry>, row: LogEntry)
    requires
        ids_distinct(before),
        !has_id(before, row.id),
    ensures
        ids_distinct(before.push(row)),
        forall|i: int| 0 <= i < before.len() ==> (#[trigger] before[i]).id != row.id,
{
    let after = before.push(row);
    assert forall|i: int, j: int| 0 <= i < j < after.len() implies (#[trigger] after[i]).id != (
    #[trigger] after[j]).id by {
        if j == before.len() {
            assert(after[i] == before[i]);
        }
    }
}

/// Once a row is added, a full newest-first listing of the table holds it,
/// with its name and payload unchanged.
pub proof fn lemma_written_row_is_listed(before: Seq<LogEntry>, row: LogEntry, listed: Seq<LogEntry>)
    requires
        is_listing_of(listed, before.push(row)),
    ensures
        listed.contains(row),
{
    assert(before.push(row)[before.len() as int] == row);
    assert(before.push(row).to_multiset().count(row) > 0);
}

/// One successful write: `after` is `before` with `row` added, and no row
/// of `before` had its id.
pub open spec fn adds_fresh_row(before: Seq<LogEntry>, row: LogEntry, after: Seq<LogEntry>) -> bool {
    after == before.push(row) && !has_id(before, row.id)
}

/// A run of successful writes, however many and whatever their payloads
/// (identical ones included), issues ids that differ from one another and
/// from every id present before the run; the run adds exactly its rows.
pub proof fn lemma_writes_issue_distinct_ids(states: Seq<Seq<LogEntry>>, rows: Seq<LogEntry>)
    requires
        states.len() == rows.len() + 1,
        ids_distinct(states[0]),
        forall|k: int| 0 <= k < rows.len() ==> adds_fresh_row(states[k], #[trigger] rows[k], states[k + 1]),
    ensures
        states.last() == states[0] + rows,
        ids_distinct(states.last()),
        forall|i: int, j: int| 0 <= i < j < rows.len() ==> (#[trigger] rows[i]).id != (#[trigger] rows[j]).id,
        forall|i: int, j: int|
            0 <= i < states[0].len() && 0 <= j < rows.len() ==> (#[trigger] states[0][i]).id != (
            #[trigger] rows[j]).id,
    decreases rows.len(),
{
    let n = rows.len() as int;
    if n == 0 {
        assert(states[0] + rows =~= states[0]);
    } else {
        let prefix_states = states.drop_last();
        let prefix_rows = rows.drop_last();
        assert forall|k: int| 0 <= k < prefix_rows.len() implies adds_fresh_row(
            prefix_states[k],
            #[trigger] prefix_rows[k],
            prefix_states[k + 1],
        ) by {
            assert(adds_fresh_row(states[k], rows[k], states[k + 1]));
        }
        lemma_writes_issue_distinct_ids(prefix_states, prefix_rows);
        assert(adds_fresh_row(states[n - 1], rows[n - 1], states[n]));
        lemma_new_id_stays_unique(states[n - 1], rows[n - 1]);
        assert(states[n - 1] + seq![rows[n - 1]] =~= states[n - 1].push(rows[n - 1]));
        assert(states.last() =~= states[0] + rows);
    }
    let all = states[0] + rows;
    let base = states[0].len() as int;
    assert forall|i: int, j: int| 0 <= i < j < rows.len() implies (#[trigger] rows[i]).id != (
    #[trigger] rows[j]).id by {
        assert(all[base + i] == rows[i] && all[base + j] == rows[j]);
    }
    assert forall|i: int, j: int| 0 <= i < states[0].len() && 0 <= j < rows.len() implies (
    #[trigger] states[0][i]).id != (#[trigger] rows[j]).id by {
        assert(all[i] == states[0][i] && all[base + j] == rows[j]);
    }
}

impl LogTable {
    /// Every id in the table is distinct.
    pub open spec fn wf(&self) -> bool {
        ids_distinct(self@)
    }

    pub fn new() -> (r: LogTable)
        ensures
            r@ == Seq::<LogEntry>::empty(),
            r.wf(),
    {
        LogTable { rows: Vec::new() }
    }

    pub fn len(&self) -> (r: usize)
        ensures
            r == self@.len(),
    {
        self.rows.len()
    }

    /// Whether some row has the identifier `id`.
    pub fn contains_id(&self, id: u128) -> (r: bool)
        ensures
            r == has_id(self@, id),
    {
        let mut i: usize = 0;
        while i < self.rows.len()
            invariant
                0 <= i <= self@.len(),
                self@ == self.rows@,
                forall|j: int| 0 <= j < i ==> (#[trigger] self@[j]).id != id,
            decreases self@.len() - i,
        {
            if self.rows[i].id == id {
                return true;
            }
            i = i + 1;
        }
        false
    }

    /// Adds a complete row in one step. A row whose id is already taken is
    /// refused, as a primary key refuses it, and the table stays as it was.
    pub fn insert(&mut self, row: LogEntry) -> (r: Result<(), StorageError>)
        requires
            old(self).wf(),
        ensures
            final(self).wf(),
            r is Err <==> has_id(old(self)@, row.id),
            r is Ok ==> final(self)@ == old(self)@.push(row),
            r is Err ==> final(self)@ == old(self)@,
    {
        if self.contains_id(row.id) {
            return Err(StorageError);
        }
        proof {
            lemma_new_id_stays_unique(self@, row);
        }
        self.rows.push(row);
        Ok(())
    }

    /// Stores a validated write under a fresh id and the current time, and
    /// returns the id. Whatever the outcome, no earlier row changes; on
    /// success exactly one row is added, and its id was never issued before.
    pub fn write(&mut self, cmd: NewLog) -> (r: Result<u128, StorageError>)
        requires
            old(self).wf(),
        ensures
            final(self).wf(),
            old(self)@.len() == 0 ==> r is Ok,
            r is Err ==> final(self)@ == old(self)@,
            r matches Ok(id) ==> {
                &&& !has_id(old(self)@, id)
                &&& final(self)@.len() == old(self)@.len() + 1
                &&& final(self)@.drop_last() == old(self)@
                &&& final(self)@.last().id == id
                &&& final(self)@.last().name == cmd.name
                &&& final(self)@.last().data == cmd.data
            },
    {
        let row = new_row(cmd);
        let id = row.id;
        let ghost before = self@;
        match self.insert(row) {
            Ok(()) => {
                assert(self@.drop_last() =~= before);
                Ok(id)
            },
            Err(e) => Err(e),
        }
    }

    /// The rows that `plan` selects, newest first.
    pub fn read(&self, plan: ReadPlan) -> (r: Vec<LogEntry>)
        ensures
            exists|full: Seq<LogEntry>|
                is_listing_of(full, self@) && r@ == full.take(yield_count(plan, self@.len()) as int),
            newest_first(r@),
            created_non_increasing(r@),
            r@.len() == yield_count(plan, self@.len()),
            plan matches ReadPlan::Recent(k) ==> r@.len() <= k,
            plan == ReadPlan::All ==> is_listing_of(r@, self@),
    {
        let r = select(&self.rows, plan);
        proof {
            let full = choose|full: Seq<LogEntry>|
                is_listing_of(full, self.rows@) && r@ == full.take(
                    yield_count(plan, self.rows@.len()) as int,
                );
            assert(is_listing_of(full, self@));
        }
        r
    }
}

} // verus!

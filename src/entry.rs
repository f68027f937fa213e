use vstd::prelude::*;

verus! {

/// One stored log record.
///
/// `id` is the 128-bit value of a random UUID, `created` counts microseconds
/// since the Unix epoch (UTC), and `data` is the JSON text of an object,
/// kept verbatim: nothing here looks inside it.
pub struct LogEntry {
    pub id: u128,
    pub name: String,
    pub data: String,
    pub created: i64,
}

/// `a` comes no later than `b` in a newest-first listing: a later `created`
/// first, and among equal `created` the larger `id` first.
pub open spec fn newer_or_same(a: LogEntry, b: LogEntry) -> bool {
    a.created > b.created || (a.created == b.created && a.id >= b.id)
}

/// Newest first, by `created` and then by `id`, both descending.
pub open spec fn newest_first(s: Seq<LogEntry>) -> bool {
    forall|i: int, j: int| 0 <= i < j < s.len() ==> newer_or_same(#[trigger] s[i], #[trigger] s[j])
}

/// Timestamps never increase along `s`.
pub open spec fn created_non_increasing(s: Seq<LogEntry>) -> bool {
    forall|i: int, j: int| 0 <= i < j < s.len() ==> (#[trigger] s[i]).created >= (#[trigger] s[j]).created
}

/// A newest-first sequence has non-increasing timestamps.
pub proof fn lemma_newest_first_by_created(s: Seq<LogEntry>)
    requires
        newest_first(s),
    ensures
        created_non_increasing(s),
{
    assert forall|i: int, j: int| 0 <= i < j < s.len() implies (#[trigger] s[i]).created >= (
    #[trigger] s[j]).created by {
        assert(newer_or_same(s[i], s[j]));
    }
}

/// `listed` holds exactly the entries of `rows`, newest first.
pub open spec fn is_listing_of(listed: Seq<LogEntry>, rows: Seq<LogEntry>) -> bool {
    newest_first(listed) && listed.to_multiset() =~= rows.to_multiset()
}

/// No two entries share an `id`.
pub open spec fn ids_distinct(s: Seq<LogEntry>) -> bool {
    forall|i: int, j: int| 0 <= i < j < s.len() ==> (#[trigger] s[i]).id != (#[trigger] s[j]).id
}

/// Some entry of `s` has the identifier `id`.
pub open spec fn has_id(s: Seq<LogEntry>, id: u128) -> bool {
    exists|i: int| 0 <= i < s.len() && (#[trigger] s[i]).id == id
}

impl LogEntry {
    pub fn new(id: u128, name: String, data: String, created: i64) -> (r: LogEntry)
        ensures
            r.id == id,
            r.name == name,
            r.data == data,
            r.created == created,
    {
        LogEntry { id, name, data, created }
    }

    /// A field-for-field copy.
    pub fn copy(&self) -> (r: LogEntry)
        ensures
            r == *self,
    {
        LogEntry { id: self.id, name: self.name.clone(), data: self.data.clone(), created: self.created }
    }

    /// Whether `self` comes no later than `other` in a newest-first listing.
    pub fn is_newer_or_same(&self, other: &LogEntry) -> (r: bool)
        ensures
            r == newer_or_same(*self, *other),
    {
        self.created > other.created || (self.created == other.created && self.id >= other.id)
    }
}

} // verus!

verus! {

/// The store failed; the cause stays in server-side diagnostics.
#[derive(Debug, PartialEq, Eq, Structural)]
pub struct StorageError;

} // verus!

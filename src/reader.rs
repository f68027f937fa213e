use vstd::prelude::*;

use crate::entry::{
    LogEntry, created_non_increasing, is_listing_of, lemma_newest_first_by_created, newer_or_same,
    newest_first,
};

verus! {

broadcast use vstd::seq_lib::group_to_multiset_ensures;

/// The two shapes a retrieval can take. The cap is a parameter of the
/// bounded shape, never part of any query text.
pub enum ReadPlan {
    /// Every stored entry.
    All,
    /// At most this many of the newest entries.
    Recent(u64),
}

/// How many entries a plan yields out of `n` stored ones.
pub open spec fn yield_count(plan: ReadPlan, n: nat) -> nat {
    match plan {
        ReadPlan::All => n,
        ReadPlan::Recent(k) => if (k as nat) < n { k as nat } else { n },
    }
}

/// The plan for a read: unbounded when asked for, else capped at `limit`.
pub fn plan_read(unbounded: bool, limit: u64) -> (r: ReadPlan)
    ensures
        unbounded ==> r == ReadPlan::All,
        !unbounded ==> r == ReadPlan::Recent(limit),
{
    if unbounded {
        ReadPlan::All
    } else {
        ReadPlan::Recent(limit)
    }
}

/// Puts `x` into a newest-first listing, after every entry that is newer
/// than or level with it.
fn insert_in_order(out: &mut Vec<LogEntry>, x: LogEntry)
    requires
        newest_first(old(out)@),
    ensures
        newest_first(final(out)@),
        final(out)@.to_multiset() == old(out)@.to_multiset().insert(x),
{
    let mut p: usize = 0;
    while p < out.len() && out[p].is_newer_or_same(&x)
        invariant
            0 <= p <= out@.len(),
            newest_first(out@),
            forall|q: int| 0 <= q < p ==> newer_or_same(#[trigger] out@[q], x),
        decreases out@.len() - p,
    {
        p = p + 1;
    }
    assert(forall|q: int| p <= q < out@.len() ==> newer_or_same(x, #[trigger] out@[q])) by {
        if p < out@.len() {
            assert(!newer_or_same(out@[p as int], x));
            assert forall|q: int| p <= q < out@.len() implies newer_or_same(x, #[trigger] out@[q]) by {
                if q > p {
                    assert(newer_or_same(out@[p as int], out@[q]));
                }
            }
        }
    }
    let ghost before = out@;
    out.insert(p, x);
    proof {
        vstd::seq_lib::to_multiset_insert(before, p as int, x);
        assert forall|i: int, j: int| 0 <= i < j < out@.len() implies newer_or_same(
            #[trigger] out@[i],
            #[trigger] out@[j],
        ) by {
            if j < p {
            } else if j == p {
            } else if i < p {
                assert(newer_or_same(before[i], x));
                assert(newer_or_same(x, before[j - 1]));
            } else if i == p {
            } else {
                assert(newer_or_same(before[i - 1], before[j - 1]));
            }
        }
    }
}

/// The entries of `rows` that `plan` selects, newest first: all of them,
/// or the first `k` of the full newest-first listing.
pub fn select(rows: &Vec<LogEntry>, plan: ReadPlan) -> (r: Vec<LogEntry>)
    ensures
        exists|full: Seq<LogEntry>|
            is_listing_of(full, rows@) && r@ == full.take(yield_count(plan, rows@.len()) as int),
        newest_first(r@),
        created_non_increasing(r@),
        r@.len() == yield_count(plan, rows@.len()),
        plan matches ReadPlan::Recent(k) ==> r@.len() <= k,
        plan == ReadPlan::All ==> is_listing_of(r@, rows@),
{
    let mut out: Vec<LogEntry> = Vec::new();
    let mut i: usize = 0;
    while i < rows.len()
        invariant
            0 <= i <= rows@.len(),
            is_listing_of(out@, rows@.take(i as int)),
        decreases rows@.len() - i,
    {
        let x = rows[i].copy();
        insert_in_order(&mut out, x);
        proof {
            assert(rows@.take(i as int + 1) =~= rows@.take(i as int).push(x));
        }
        i = i + 1;
    }
    assert(rows@.take(rows@.len() as int) =~= rows@);
    let ghost full = out@;
    assert(full.to_multiset().len() == rows@.to_multiset().len());
    assert(full.len() == rows@.len());
    match plan {
        ReadPlan::All => {},
        ReadPlan::Recent(k) => {
            if k < out.len() as u64 {
                out.truncate(k as usize);
            }
        },
    }
    proof {
        assert(out@ =~= full.take(yield_count(plan, rows@.len()) as int));
        assert(out@.len() == yield_count(plan, rows@.len()));
        lemma_newest_first_by_created(out@);
    }
    out
}

} // verus!

//! Gateway counters: how many events the surfaces have seen and how many
//! ingest requests were rejected, broken down by reason. Counters only grow
//! (saturating at the top), so monitoring can always observe rejections and
//! zero-delivery outcomes.

use vstd::prelude::*;

verus! {

/// One rejection reason and how often it was counted.
pub struct RejectCounter {
    pub reason: String,
    pub count: u64,
}

/// The count recorded for `reason` among `entries`; zero when absent.
pub open spec fn count_for(entries: Seq<RejectCounter>, reason: Seq<char>) -> u64
    decreases entries.len(),
{
    if entries.len() == 0 {
        0
    } else if entries.last().reason@ == reason {
        entries.last().count
    } else {
        count_for(entries.drop_last(), reason)
    }
}

/// Process counters, owned by the gateway and updated on the request paths.
pub struct AppMetrics {
    events_received_count: u64,
    rejected: Vec<RejectCounter>,
}

impl AppMetrics {
    /// Each rejection reason occupies at most one entry.
    pub closed spec fn wf(&self) -> bool {
        forall|i: int, j: int|
            0 <= i < j < self.rejected@.len() ==> self.rejected@[i].reason@
                != self.rejected@[j].reason@
    }

    pub closed spec fn spec_events_received(&self) -> u64 {
        self.events_received_count
    }

    pub closed spec fn spec_rejected(&self, reason: Seq<char>) -> u64 {
        count_for(self.rejected@, reason)
    }

    pub fn new() -> (m: Self)
        ensures
            m.wf(),
            m.spec_events_received() == 0,
            forall|reason: Seq<char>| m.spec_rejected(reason) == 0,
    {
        AppMetrics { events_received_count: 0, rejected: Vec::new() }
    }

    /// Counts one event seen by a surface.
    pub fn events_received(&mut self)
        requires
            old(self).wf(),
        ensures
            final(self).wf(),
            final(self).spec_events_received() == if old(self).spec_events_received() == u64::MAX {
                u64::MAX as int
            } else {
                old(self).spec_events_received() + 1
            },
            forall|reason: Seq<char>|
                final(self).spec_rejected(reason) == old(self).spec_rejected(reason),
    {
        self.events_received_count = self.events_received_count.saturating_add(1);
    }

    /// Counts one rejected ingest request under its reason; every other
    /// reason's count is untouched.
    pub fn ingest_rejected_total(&mut self, reason: &str)
        requires
            old(self).wf(),
        ensures
            final(self).wf(),
            final(self).spec_events_received() == old(self).spec_events_received(),
            final(self).spec_rejected(reason@) == if old(self).spec_rejected(reason@) == u64::MAX {
                u64::MAX as int
            } else {
                old(self).spec_rejected(reason@) + 1
            },
            forall|other: Seq<char>|
                other != reason@ ==> final(self).spec_rejected(other) == old(self).spec_rejected(
                    other,
                ),
    {
        let ghost entries = self.rejected@;
        let reason_owned: String = reason.to_owned();
        let mut i: usize = 0;
        while i < self.rejected.len()
            invariant
                i <= entries.len(),
                self.rejected@ == entries,
                entries == old(self).rejected@,
                self.events_received_count == old(self).events_received_count,
                forall|p: int, q: int|
                    0 <= p < q < entries.len() ==> entries[p].reason@ != entries[q].reason@,
                forall|j: int| 0 <= j < i ==> entries[j].reason@ != reason@,
                reason_owned@ == reason@,
            decreases entries.len() - i,
        {
            if self.rejected[i].reason == reason_owned {
                proof {
                    lemma_count_for_at(entries, i as int);
                }
                let e = &mut self.rejected[i];
                e.count = e.count.saturating_add(1);
                proof {
                    assert(self.rejected@[i as int].reason@ == reason@);
                    lemma_count_for_update_all(entries, i as int, self.rejected@[i as int]);
                }
                return ;
            }
            i = i + 1;
        }
        self.rejected.push(RejectCounter { reason: reason_owned, count: 1 });
        proof {
            assert(self.rejected@.drop_last() =~= entries);
            lemma_count_for_absent(entries, reason@);
        }
    }

    pub fn events_received_total(&self) -> (n: u64)
        ensures
            n == self.spec_events_received(),
    {
        self.events_received_count
    }

    /// Reads the rejection count recorded for `reason`.
    pub fn rejected_total_for(&self, reason: &str) -> (n: u64)
        requires
            self.wf(),
        ensures
            n == self.spec_rejected(reason@),
    {
        let reason_owned: String = reason.to_owned();
        let mut i: usize = 0;
        while i < self.rejected.len()
            invariant
                i <= self.rejected@.len(),
                self.wf(),
                forall|j: int| 0 <= j < i ==> self.rejected@[j].reason@ != reason@,
                reason_owned@ == reason@,
            decreases self.rejected@.len() - i,
        {
            if self.rejected[i].reason == reason_owned {
                proof {
                    lemma_count_for_at(self.rejected@, i as int);
                }
                return self.rejected[i].count;
            }
            i = i + 1;
        }
        proof {
            lemma_count_for_absent(self.rejected@, reason@);
        }
        0
    }
}

/// With distinct reasons, the recorded count for the reason at `i` is that
/// entry's count.
proof fn lemma_count_for_at(entries: Seq<RejectCounter>, i: int)
    requires
        0 <= i < entries.len(),
        forall|p: int, q: int|
            0 <= p < q < entries.len() ==> entries[p].reason@ != entries[q].reason@,
    ensures
        count_for(entries, entries[i].reason@) == entries[i].count,
    decreases entries.len(),
{
    if i == entries.len() - 1 {
    } else {
        assert(entries.drop_last()[i] == entries[i]);
        lemma_count_for_at(entries.drop_last(), i);
    }
}

/// A reason that appears in no entry has count zero.
proof fn lemma_count_for_absent(entries: Seq<RejectCounter>, reason: Seq<char>)
    requires
        forall|j: int| 0 <= j < entries.len() ==> entries[j].reason@ != reason,
    ensures
        count_for(entries, reason) == 0,
    decreases entries.len(),
{
    if entries.len() > 0 {
        lemma_count_for_absent(entries.drop_last(), reason);
    }
}

/// Replacing the entry at `i` by one with the same reason moves that reason's
/// count to the new entry's count and leaves every other reason's count alone.
proof fn lemma_count_for_update(entries: Seq<RejectCounter>, i: int, e: RejectCounter, r: Seq<char>)
    requires
        0 <= i < entries.len(),
        forall|p: int, q: int|
            0 <= p < q < entries.len() ==> entries[p].reason@ != entries[q].reason@,
        e.reason@ == entries[i].reason@,
    ensures
        count_for(entries.update(i, e), r) == if r == e.reason@ {
            e.count
        } else {
            count_for(entries, r)
        },
    decreases entries.len(),
{
    let updated = entries.update(i, e);
    if i == entries.len() - 1 {
        assert(updated.drop_last() =~= entries.drop_last());
        if r != e.reason@ {
        }
    } else {
        assert(updated.last() == entries.last());
        assert(updated.drop_last() =~= entries.drop_last().update(i, e));
        assert(entries.drop_last()[i] == entries[i]);
        lemma_count_for_update(entries.drop_last(), i, e, r);
    }
}

/// As `lemma_count_for_update`, stated for every reason at once.
proof fn lemma_count_for_update_all(entries: Seq<RejectCounter>, i: int, e: RejectCounter)
    requires
        0 <= i < entries.len(),
        forall|p: int, q: int|
            0 <= p < q < entries.len() ==> entries[p].reason@ != entries[q].reason@,
        e.reason@ == entries[i].reason@,
    ensures
        forall|r: Seq<char>|
            #[trigger] count_for(entries.update(i, e), r) == if r == e.reason@ {
                e.count
            } else {
                count_for(entries, r)
            },
{
    assert forall|r: Seq<char>|
        #[trigger] count_for(entries.update(i, e), r) == if r == e.reason@ {
            e.count
        } else {
            count_for(entries, r)
        } by {
        lemma_count_for_update(entries, i, e, r);
    }
}

} // verus!

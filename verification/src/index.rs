//! The installed-app index: one record per installed application, mapping the
//! application id to the content hash of the bundle that is currently
//! installed for it. The index is read on every conditional update and
//! overwritten on every successful install or update.

use vstd::prelude::*;

verus! {

/// One entry of the index.
pub struct InstalledAppRecord {
    /// The application id the record is for.
    pub app_id: String,
    /// Content hash of the bundle currently installed under `app_id`.
    pub happ_bundle_hash: u64,
}

/// First-match lookup of an application id in a sequence of records.
pub open spec fn lookup_in(records: Seq<InstalledAppRecord>, id: Seq<char>) -> Option<u64>
    decreases records.len(),
{
    if records.len() == 0 {
        None
    } else if records[0].app_id@ == id {
        Some(records[0].happ_bundle_hash)
    } else {
        lookup_in(records.drop_first(), id)
    }
}

/// If no record among the first `i` matches `id`, the lookup is decided by
/// the remaining records.
pub(crate) proof fn lemma_lookup_prefix_miss(records: Seq<InstalledAppRecord>, id: Seq<char>, i: int)
    requires
        0 <= i <= records.len(),
        forall|k: int| 0 <= k < i ==> records[k].app_id@ != id,
    ensures
        lookup_in(records, id) == lookup_in(records.skip(i), id),
    decreases i,
{
    if i > 0 {
        lemma_lookup_prefix_miss(records.drop_first(), id, i - 1);
        assert(records.drop_first().skip(i - 1) =~= records.skip(i));
    } else {
        assert(records.skip(0) =~= records);
    }
}

/// Replacing the record at a position by one with the same application id
/// leaves lookups of every other id unchanged.
proof fn lemma_lookup_update_other(
    records: Seq<InstalledAppRecord>,
    i: int,
    r: InstalledAppRecord,
    id2: Seq<char>,
)
    requires
        0 <= i < records.len(),
        records[i].app_id@ == r.app_id@,
        id2 != r.app_id@,
    ensures
        lookup_in(records.update(i, r), id2) == lookup_in(records, id2),
    decreases i,
{
    let updated = records.update(i, r);
    if i == 0 {
        assert(updated.drop_first() =~= records.drop_first());
    } else {
        assert(updated[0] == records[0]);
        if records[0].app_id@ != id2 {
            assert(updated.drop_first() =~= records.drop_first().update(i - 1, r));
            lemma_lookup_update_other(records.drop_first(), i - 1, r, id2);
        }
    }
}

/// Appending a record decides lookups that the existing records leave open,
/// and changes no lookup they already decide.
proof fn lemma_lookup_push(records: Seq<InstalledAppRecord>, r: InstalledAppRecord, id: Seq<char>)
    ensures
        lookup_in(records.push(r), id) == if lookup_in(records, id) is Some {
            lookup_in(records, id)
        } else if r.app_id@ == id {
            Some(r.happ_bundle_hash)
        } else {
            None::<u64>
        },
    decreases records.len(),
{
    let pushed = records.push(r);
    assert(pushed.len() == records.len() + 1);
    if records.len() == 0 {
        assert(pushed[0] == r);
        assert(pushed.drop_first() =~= Seq::<InstalledAppRecord>::empty());
        assert(lookup_in(records, id) is None);
        if r.app_id@ == id {
            assert(lookup_in(pushed, id) == Some(r.happ_bundle_hash));
        } else {
            assert(lookup_in(pushed, id) == lookup_in(pushed.drop_first(), id));
            assert(lookup_in(pushed, id) is None);
        }
    } else {
        assert(pushed[0] == records[0]);
        if records[0].app_id@ == id {
            assert(lookup_in(pushed, id) == Some(records[0].happ_bundle_hash));
            assert(lookup_in(records, id) == Some(records[0].happ_bundle_hash));
        } else {
            assert(pushed.drop_first() =~= records.drop_first().push(r));
            lemma_lookup_push(records.drop_first(), r, id);
            assert(lookup_in(pushed, id) == lookup_in(records.drop_first().push(r), id));
            assert(lookup_in(records, id) == lookup_in(records.drop_first(), id));
        }
    }
}

/// The persisted index of installed applications.
pub struct InstalledAppsIndex {
    /// The records, at most one per application id.
    pub records: Vec<InstalledAppRecord>,
}

impl InstalledAppsIndex {
    /// Application ids are unique across the records.
    pub open spec fn wf(&self) -> bool {
        forall|i: int, j: int|
            0 <= i < j < self.records@.len() ==> #[trigger] self.records@[i].app_id@
                != #[trigger] self.records@[j].app_id@
    }

    /// The content hash recorded for an application id, if any.
    pub open spec fn spec_lookup(&self, id: Seq<char>) -> Option<u64> {
        lookup_in(self.records@, id)
    }

    /// An empty index: no application has ever been recorded as installed.
    pub fn new() -> (r: InstalledAppsIndex)
        ensures
            r.wf(),
            forall|id: Seq<char>| r.spec_lookup(id) is None,
            r.records@.len() == 0,
    {
        InstalledAppsIndex { records: Vec::new() }
    }

    /// Looks up the content hash recorded for `app_id`.
    pub fn get(&self, app_id: &String) -> (r: Option<u64>)
        ensures
            r == self.spec_lookup(app_id@),
    {
        let n = self.records.len();
        let mut i: usize = 0;
        while i < n
            invariant
                n == self.records@.len(),
                i <= n,
                forall|k: int| 0 <= k < i ==> self.records@[k].app_id@ != app_id@,
            decreases n - i,
        {
            if self.records[i].app_id == *app_id {
                proof {
                    lemma_lookup_prefix_miss(self.records@, app_id@, i as int);
                    assert(self.records@.skip(i as int)[0] == self.records@[i as int]);
                }
                return Some(self.records[i].happ_bundle_hash);
            }
            i = i + 1;
        }
        proof {
            lemma_lookup_prefix_miss(self.records@, app_id@, n as int);
            assert(self.records@.skip(n as int) =~= Seq::<InstalledAppRecord>::empty());
        }
        None
    }

    /// Records that `app_id` now has a bundle with content hash `hash`
    /// installed, overwriting any earlier record for the same id and leaving
    /// every other application's record unchanged.
    pub fn record_install(&mut self, app_id: String, hash: u64)
        requires
            old(self).wf(),
        ensures
            final(self).wf(),
            final(self).spec_lookup(app_id@) == Some(hash),
            forall|id2: Seq<char>|
                id2 != app_id@ ==> final(self).spec_lookup(id2) == old(self).spec_lookup(id2),
    {
        let ghost orig = self.records@;
        let n = self.records.len();
        let mut i: usize = 0;
        while i < n
            invariant
                self.records@ == orig,
                orig == old(self).records@,
                old(self).wf(),
                n == orig.len(),
                i <= n,
                forall|k: int| 0 <= k < i ==> orig[k].app_id@ != app_id@,
            decreases n - i,
        {
            if self.records[i].app_id == *(&app_id) {
                let ghost idx = i as int;
                let rec = InstalledAppRecord { app_id, happ_bundle_hash: hash };
                let ghost rec_ghost = rec;
                self.records[i] = rec;
                proof {
                    assert(self.records@ =~= orig.update(idx, rec_ghost));
                    assert(rec_ghost.app_id@ == app_id@);
                    assert(forall|k: int|
                        0 <= k < orig.len() ==> #[trigger] self.records@[k].app_id@
                            == orig[k].app_id@);
                    lemma_lookup_prefix_miss(self.records@, rec_ghost.app_id@, idx);
                    assert(self.records@.skip(idx)[0] == self.records@[idx]);
                    assert forall|id2: Seq<char>| id2 != rec_ghost.app_id@ implies lookup_in(
                        self.records@,
                        id2,
                    ) == lookup_in(orig, id2) by {
                        lemma_lookup_update_other(orig, idx, rec_ghost, id2);
                    }
                }
                return ;
            }
            i = i + 1;
        }
        let rec = InstalledAppRecord { app_id, happ_bundle_hash: hash };
        let ghost rec_ghost = rec;
        self.records.push(rec);
        proof {
            lemma_lookup_prefix_miss(orig, rec_ghost.app_id@, n as int);
            assert(orig.skip(n as int) =~= Seq::<InstalledAppRecord>::empty());
            assert(lookup_in(orig, rec_ghost.app_id@) is None);
            assert forall|id2: Seq<char>|
                lookup_in(self.records@, id2) == if lookup_in(orig, id2) is Some {
                    lookup_in(orig, id2)
                } else if rec_ghost.app_id@ == id2 {
                    Some(rec_ghost.happ_bundle_hash)
                } else {
                    None::<u64>
                } by {
                lemma_lookup_push(orig, rec_ghost, id2);
            }
        }
    }
}

} // verus!

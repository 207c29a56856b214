//! The process registry: the single source of truth for which player
//! processes are currently under supervision.
//!
//! The registry maps process identifiers to their records.  Its one
//! structural invariant is that no two entries ever carry the same
//! identifier; every operation preserves it.  Removal is the sole deletion
//! primitive and is remove-if-present, which is what makes the race between
//! an explicit termination request and the exit watcher safe: whichever
//! remover observes the entry first takes it, and the other finds nothing.

use vstd::prelude::*;
use crate::record::MpvProcess;

verus! {

/// The in-memory registry of supervised player processes.
pub struct Registry {
    entries: Vec<MpvProcess>,
}

impl View for Registry {
    type V = Seq<MpvProcess>;

    closed spec fn view(&self) -> Seq<MpvProcess> {
        self.entries@
    }
}

impl Registry {
    /// No two entries carry the same identifier.
    pub open spec fn wf(self) -> bool {
        forall|i: int, j: int|
            0 <= i < self@.len() && 0 <= j < self@.len() && i != j ==> self@[i].id != self@[j].id
    }

    /// Some entry carries the identifier `id`.
    pub open spec fn contains_id(self, id: u32) -> bool {
        exists|i: int| 0 <= i < self@.len() && self@[i].id == id
    }

    /// The index of the entry carrying `id` (meaningful only when
    /// `contains_id(id)` holds; unique when `wf()` holds as well).
    pub open spec fn idx_of(self, id: u32) -> int {
        choose|i: int| 0 <= i < self@.len() && self@[i].id == id
    }

    /// The record registered under `id` (meaningful only when
    /// `contains_id(id)` holds).
    pub open spec fn record_for(self, id: u32) -> MpvProcess {
        self@[self.idx_of(id)]
    }

    /// In a well-formed registry the entry at any index is exactly the
    /// record registered under that entry's identifier.
    pub proof fn lemma_record_at(self, k: int)
        requires
            self.wf(),
            0 <= k < self@.len(),
        ensures
            self.contains_id(self@[k].id),
            self.idx_of(self@[k].id) == k,
            self.record_for(self@[k].id) == self@[k],
    {
        assert(0 <= k < self@.len() && self@[k].id == self@[k].id);
        let j = self.idx_of(self@[k].id);
        assert(0 <= j < self@.len() && self@[j].id == self@[k].id);
    }

    /// The registry never holds two entries with the same identifier:
    /// entries at distinct positions always differ in `id`.
    pub proof fn lemma_ids_distinct(self, i: int, j: int)
        requires
            self.wf(),
            0 <= i < self@.len(),
            0 <= j < self@.len(),
            i != j,
        ensures
            self@[i].id != self@[j].id,
    {
    }

    /// An empty registry: the state at startup.
    pub fn new() -> (r: Registry)
        ensures
            r@ =~= Seq::<MpvProcess>::empty(),
            r.wf(),
    {
        Registry { entries: Vec::new() }
    }

    /// Adds the entry for `rec.id`, replacing any entry already registered
    /// under that identifier.  All other entries are untouched.
    pub fn insert(&mut self, rec: MpvProcess)
        requires
            old(self).wf(),
        ensures
            final(self).wf(),
            final(self).contains_id(rec.id),
            final(self).record_for(rec.id) == rec,
            forall|q: u32|
                q != rec.id ==> (final(self).contains_id(q) <==> old(self).contains_id(q)),
            forall|q: u32|
                q != rec.id && old(self).contains_id(q) ==> final(self).record_for(q) == old(self).record_for(q),
            old(self).contains_id(rec.id) ==> final(self)@.len() == old(self)@.len(),
            !old(self).contains_id(rec.id) ==> final(self)@.len() == old(self)@.len() + 1,
    {
        let ghost pre = *self;
        let n = self.entries.len();
        let mut i: usize = 0;
        while i < n
            invariant
                *self == pre,
                pre == *old(self),
                pre.wf(),
                n == self.entries.len(),
                i <= n,
                forall|k: int| 0 <= k < i ==> self@[k].id != rec.id,
            decreases n - i,
        {
            if self.entries[i].id == rec.id {
                let ghost hit = i as int;
                proof {
                    assert(pre@[hit].id == rec.id);
                }
                self.entries[i] = rec;
                proof {
                    assert(self@ =~= pre@.update(hit, rec));
                    assert(pre.contains_id(rec.id)) by {
                        assert(0 <= hit < pre@.len() && pre@[hit].id == rec.id);
                    }
                    assert(self.wf()) by {
                        assert forall|a: int, b: int|
                            0 <= a < self@.len() && 0 <= b < self@.len() && a != b implies self@[
                            a].id != self@[b].id by {
                            assert(pre@[a].id != pre@[b].id);
                            assert(self@[a].id == pre@[a].id);
                            assert(self@[b].id == pre@[b].id);
                        }
                    }
                    self.lemma_record_at(hit);
                    assert forall|q: u32| q != rec.id implies (self.contains_id(q)
                        <==> pre.contains_id(q)) by {
                        if self.contains_id(q) {
                            let w = self.idx_of(q);
                            assert(pre@[w].id == q);
                        }
                        if pre.contains_id(q) {
                            let w = pre.idx_of(q);
                            assert(self@[w].id == q);
                        }
                    }
                    assert forall|q: u32| q != rec.id && pre.contains_id(q) implies
                        self.record_for(q) == pre.record_for(q) by {
                        let w = pre.idx_of(q);
                        assert(0 <= w < pre@.len() && pre@[w].id == q);
                        assert(w != hit);
                        pre.lemma_record_at(w);
                        assert(self@[w].id == q);
                        self.lemma_record_at(w);
                    }
                }
                return ;
            }
            i += 1;
        }
        let ghost tail = self.entries@.len() as int;
        self.entries.push(rec);
        proof {
            assert(self@ =~= pre@.push(rec));
            assert(!pre.contains_id(rec.id)) by {
                if pre.contains_id(rec.id) {
                    let w = pre.idx_of(rec.id);
                    assert(pre@[w].id == rec.id);
                }
            }
            assert(self.wf()) by {
                assert forall|a: int, b: int|
                    0 <= a < self@.len() && 0 <= b < self@.len() && a != b implies self@[a].id
                    != self@[b].id by {
                    if a < tail && b < tail {
                        assert(pre@[a].id != pre@[b].id);
                    } else if a == tail {
                        assert(pre@[b].id != rec.id);
                    } else if b == tail {
                        assert(pre@[a].id != rec.id);
                    }
                }
            }
            assert(self@[tail].id == rec.id);
            self.lemma_record_at(tail);
            assert forall|q: u32| q != rec.id implies (self.contains_id(q) <==> pre.contains_id(
                q,
            )) by {
                if self.contains_id(q) {
                    let w = self.idx_of(q);
                    assert(w != tail);
                    assert(pre@[w].id == q);
                }
                if pre.contains_id(q) {
                    let w = pre.idx_of(q);
                    assert(self@[w].id == q);
                }
            }
            assert forall|q: u32| q != rec.id && pre.contains_id(q) implies self.record_for(q)
                == pre.record_for(q) by {
                let w = pre.idx_of(q);
                assert(0 <= w < pre@.len() && pre@[w].id == q);
                pre.lemma_record_at(w);
                assert(self@[w].id == q);
                self.lemma_record_at(w);
            }
        }
    }

    /// Atomically deletes and returns the entry registered under `id` if one
    /// is present; otherwise returns nothing and changes nothing.  This is
    /// the sole deletion primitive: after it returns, no entry carries `id`.
    pub fn remove(&mut self, id: u32) -> (r: Option<MpvProcess>)
        requires
            old(self).wf(),
        ensures
            final(self).wf(),
            !final(self).contains_id(id),
            old(self).contains_id(id) ==> r == Some(old(self).record_for(id)) && final(self)@.len() + 1 == old(self)@.len(),
            !old(self).contains_id(id) ==> r == None::<MpvProcess> && final(self)@ == old(self)@,
            forall|q: u32| q != id ==> (final(self).contains_id(q) <==> old(self).contains_id(q)),
            forall|q: u32|
                q != id && old(self).contains_id(q) ==> final(self).record_for(q) == old(self).record_for(q),
    {
        let ghost pre = *self;
        let n = self.entries.len();
        let mut i: usize = 0;
        while i < n
            invariant
                *self == pre,
                pre == *old(self),
                pre.wf(),
                n == self.entries.len(),
                i <= n,
                forall|k: int| 0 <= k < i ==> self@[k].id != id,
            decreases n - i,
        {
            if self.entries[i].id == id {
                let ghost hit = i as int;
                let taken = self.entries.remove(i);
                proof {
                    assert(self@ =~= pre@.remove(hit));
                    pre.lemma_record_at(hit);
                    assert(taken == pre.record_for(id));
                    assert(self.wf()) by {
                        assert forall|a: int, b: int|
                            0 <= a < self@.len() && 0 <= b < self@.len() && a != b implies self@[
                            a].id != self@[b].id by {
                            let a0 = if a < hit { a } else { a + 1 };
                            let b0 = if b < hit { b } else { b + 1 };
                            assert(self@[a] == pre@[a0]);
                            assert(self@[b] == pre@[b0]);
                        }
                    }
                    assert(!self.contains_id(id)) by {
                        if self.contains_id(id) {
                            let w = self.idx_of(id);
                            let w0 = if w < hit { w } else { w + 1 };
                            assert(pre@[w0].id == id);
                            assert(w0 != hit);
                        }
                    }
                    assert forall|q: u32| q != id implies (self.contains_id(q)
                        <==> pre.contains_id(q)) by {
                        if self.contains_id(q) {
                            let w = self.idx_of(q);
                            let w0 = if w < hit { w } else { w + 1 };
                            assert(pre@[w0].id == q);
                        }
                        if pre.contains_id(q) {
                            let w = pre.idx_of(q);
                            assert(pre@[w].id == q);
                            assert(w != hit);
                            let w1 = if w < hit { w } else { w - 1 };
                            assert(self@[w1].id == q);
                        }
                    }
                    assert forall|q: u32| q != id && pre.contains_id(q) implies self.record_for(
                        q,
                    ) == pre.record_for(q) by {
                        let w = pre.idx_of(q);
                        assert(0 <= w < pre@.len() && pre@[w].id == q);
                        pre.lemma_record_at(w);
                        assert(w != hit);
                        let w1 = if w < hit { w } else { w - 1 };
                        assert(self@[w1] == pre@[w]);
                        assert(self@[w1].id == q);
                        self.lemma_record_at(w1);
                    }
                }
                return Some(taken);
            }
            i += 1;
        }
        proof {
            assert(!self.contains_id(id)) by {
                if self.contains_id(id) {
                    let w = self.idx_of(id);
                    assert(self@[w].id == id);
                }
            }
        }
        None
    }

    /// A point-in-time copy of all current entries, in registry order.
    pub fn snapshot(&self) -> (r: Vec<MpvProcess>)
        ensures
            r@ == self@,
    {
        let n = self.entries.len();
        let mut out: Vec<MpvProcess> = Vec::new();
        let mut i: usize = 0;
        while i < n
            invariant
                n == self.entries.len(),
                i <= n,
                out@ =~= self@.subrange(0, i as int),
            decreases n - i,
        {
            out.push(self.entries[i].clone());
            i += 1;
        }
        proof {
            assert(out@ =~= self@);
        }
        out
    }

    /// How many entries are currently registered.
    pub fn len(&self) -> (r: usize)
        ensures
            r == self@.len(),
    {
        self.entries.len()
    }
}

/// The relation between the registry before and after a removal of `id`
/// that returned `r`: exactly what `Registry::remove` ensures.
pub open spec fn removes(pre: Registry, post: Registry, id: u32, r: Option<MpvProcess>) -> bool {
    &&& post.wf()
    &&& !post.contains_id(id)
    &&& (pre.contains_id(id) ==> r == Some(pre.record_for(id)) && post@.len() + 1 == pre@.len())
    &&& (!pre.contains_id(id) ==> r == None::<MpvProcess> && post@ == pre@)
    &&& (forall|q: u32| q != id ==> (post.contains_id(q) <==> pre.contains_id(q)))
    &&& (forall|q: u32| q != id && pre.contains_id(q) ==> post.record_for(q) == pre.record_for(q))
}

/// Each registered entry is removed, and its removal reported, exactly once.
///
/// Explicit termination and the exit watcher race to delete the same entry,
/// and each reports a removal exactly when its deletion returned the record.
/// Whichever remover acts first receives the registered record; the one that
/// acts second finds no entry under the identifier and receives nothing.  So
/// of two racing removals of one registered entry, exactly one yields the
/// record, and exactly one removal report is made for it.
pub proof fn lemma_removed_exactly_once(
    pre: Registry,
    mid: Registry,
    post: Registry,
    id: u32,
    r1: Option<MpvProcess>,
    r2: Option<MpvProcess>,
)
    requires
        pre.contains_id(id),
        removes(pre, mid, id, r1),
        removes(mid, post, id, r2),
    ensures
        r1 == Some(pre.record_for(id)),
        r2 == None::<MpvProcess>,
        !post.contains_id(id),
{
}

/// A snapshot taken after a removal was reported does not contain the
/// removed entry.
///
/// A removal report for `id` is made only by a remover whose deletion
/// succeeded, and a deletion leaves no entry under `id` behind; a snapshot
/// returns exactly the current entries.  So as long as no new process is
/// registered under the same identifier, no later snapshot holds an entry
/// whose removal was already reported.
pub proof fn lemma_removed_not_listed(
    pre: Registry,
    post: Registry,
    id: u32,
    r: Option<MpvProcess>,
    snap: Seq<MpvProcess>,
)
    requires
        removes(pre, post, id, r),
        snap == post@,
    ensures
        forall|i: int| 0 <= i < snap.len() ==> snap[i].id != id,
{
    assert forall|i: int| 0 <= i < snap.len() implies snap[i].id != id by {
        if snap[i].id == id {
            assert(post.contains_id(id));
        }
    }
}

} // verus!

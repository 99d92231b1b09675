//! The handle table: a registry of native resources keyed by integer handle.
//! Handlers that retain native state between calls register it here and hand
//! the guest only the integer handle; every later access is mediated by the
//! table. Handle numbers are assigned monotonically and are never reassigned
//! while the previous owner is still registered.

use vstd::prelude::*;

verus! {

/// A registry mapping integer handles to a kind tag and an owned resource.
pub struct HandleTable<R> {
    entries: Vec<(u32, String, R)>,
    next_rid: u32,
}

impl<R> HandleTable<R> {
    /// The live entries, in registration order, as (handle, kind, resource).
    pub closed spec fn entries_seq(self) -> Seq<(u32, String, R)> {
        self.entries@
    }

    /// The handle the next registration will receive.
    pub closed spec fn next_handle(self) -> u32 {
        self.next_rid
    }

    /// Whether `rid` names a live entry.
    pub open spec fn has_rid(self, rid: u32) -> bool {
        exists|i: int|
            0 <= i < self.entries_seq().len() && (#[trigger] self.entries_seq()[i]).0 == rid
    }

    /// The position of the entry named `rid`, when one is live.
    pub open spec fn idx_of(self, rid: u32) -> int {
        choose|i: int|
            0 <= i < self.entries_seq().len() && (#[trigger] self.entries_seq()[i]).0 == rid
    }

    /// The kind tag of the entry named `rid`, when one is live.
    pub open spec fn kind_of(self, rid: u32) -> Seq<char> {
        self.entries_seq()[self.idx_of(rid)].1@
    }

    /// The resource of the entry named `rid`, when one is live.
    pub open spec fn res_of(self, rid: u32) -> R {
        self.entries_seq()[self.idx_of(rid)].2
    }

    /// Every live handle is below the next one to be assigned, and no two
    /// live entries share a handle.
    pub open spec fn wf(self) -> bool {
        &&& forall|i: int, j: int|
            0 <= i < j < self.entries_seq().len() ==> (#[trigger] self.entries_seq()[i]).0 != (
            #[trigger] self.entries_seq()[j]).0
        &&& forall|i: int|
            0 <= i < self.entries_seq().len() ==> (#[trigger] self.entries_seq()[i]).0
                < self.next_handle()
    }

    /// The index found for a live handle is the only one that bears it.
    pub proof fn lemma_idx_unique(self, i: int, rid: u32)
        requires
            self.wf(),
            0 <= i < self.entries_seq().len(),
            self.entries_seq()[i].0 == rid,
        ensures
            self.idx_of(rid) == i,
            self.has_rid(rid),
    {
        assert(self.has_rid(rid));
        let j = self.idx_of(rid);
        if i < j {
            assert(self.entries_seq()[i].0 != self.entries_seq()[j].0);
        } else if j < i {
            assert(self.entries_seq()[j].0 != self.entries_seq()[i].0);
        }
    }

    /// Law: a handle number is never reassigned while its previous owner is
    /// still registered: the handle that the next registration will receive
    /// does not name any live entry, and by induction no handle at or above
    /// it does.
    pub proof fn lemma_fresh_handle_not_live(self)
        requires
            self.wf(),
        ensures
            forall|rid: u32| rid >= self.next_handle() ==> !(#[trigger] self.has_rid(rid)),
    {
        assert forall|rid: u32| rid >= self.next_handle() implies !(#[trigger] self.has_rid(
            rid,
        )) by {
            if self.has_rid(rid) {
                let i = self.idx_of(rid);
                assert(self.entries_seq()[i].0 < self.next_handle());
            }
        }
    }

    /// An empty table; the first registration receives handle 0.
    pub fn new() -> (t: HandleTable<R>)
        ensures
            t.wf(),
            t.entries_seq() == Seq::<(u32, String, R)>::empty(),
            t.next_handle() == 0,
    {
        let t = HandleTable { entries: Vec::new(), next_rid: 0 };
        proof {
            assert(t.entries_seq() =~= Seq::<(u32, String, R)>::empty());
        }
        t
    }

    /// Number of live entries.
    pub fn len(&self) -> (n: usize)
        ensures
            n == self.entries_seq().len(),
    {
        self.entries.len()
    }

    /// Registers a resource under a fresh handle and returns the handle.
    pub fn add(&mut self, kind: &str, resource: R) -> (rid: u32)
        requires
            old(self).wf(),
            old(self).next_handle() < u32::MAX,
        ensures
            final(self).wf(),
            rid == old(self).next_handle(),
            !old(self).has_rid(rid),
            final(self).next_handle() == old(self).next_handle() + 1,
            final(self).entries_seq().len() == old(self).entries_seq().len() + 1,
            final(self).entries_seq().take(old(self).entries_seq().len() as int) == old(self).entries_seq(),
            final(self).has_rid(rid),
            final(self).idx_of(rid) == old(self).entries_seq().len(),
            final(self).kind_of(rid) == kind@,
            final(self).res_of(rid) == resource,
            forall|r2: u32|
                r2 != rid ==> #[trigger] final(self).has_rid(r2) == old(self).has_rid(r2),
            forall|r2: u32|
                r2 != rid && old(self).has_rid(r2) ==> #[trigger] final(self).res_of(r2) == old(self).res_of(r2),
            forall|r2: u32|
                r2 != rid && old(self).has_rid(r2) ==> #[trigger] final(self).kind_of(r2) == old(self).kind_of(r2),
            forall|r2: u32|
                r2 != rid && old(self).has_rid(r2) ==> #[trigger] final(self).idx_of(r2) == old(self).idx_of(r2),
    {
        proof {
            old(self).lemma_fresh_handle_not_live();
        }
        let rid = self.next_rid;
        let tag: String = kind.to_owned();
        self.entries.push((rid, tag, resource));
        self.next_rid = self.next_rid + 1;
        proof {
            let pre = old(self).entries_seq();
            let post = self.entries_seq();
            assert(post.take(pre.len() as int) =~= pre);
            self.lemma_idx_unique(pre.len() as int, rid);
            assert forall|r2: u32| r2 != rid implies #[trigger] self.has_rid(r2) == old(self).has_rid(r2) by {
                if old(self).has_rid(r2) {
                    let i = old(self).idx_of(r2);
                    assert(post[i].0 == r2);
                } else if self.has_rid(r2) {
                    let i = self.idx_of(r2);
                    assert(i < pre.len() && pre[i].0 == r2);
                }
            }
            assert forall|r2: u32| r2 != rid && old(self).has_rid(r2) implies #[trigger] self
                .res_of(r2) == old(self).res_of(r2) by {
                let i = old(self).idx_of(r2);
                assert(post[i].0 == r2);
                self.lemma_idx_unique(i, r2);
            }
            assert forall|r2: u32| r2 != rid && old(self).has_rid(r2) implies #[trigger] self
                .kind_of(r2) == old(self).kind_of(r2) by {
                let i = old(self).idx_of(r2);
                assert(post[i].0 == r2);
                self.lemma_idx_unique(i, r2);
            }
            assert forall|r2: u32| r2 != rid && old(self).has_rid(r2) implies #[trigger] self
                .idx_of(r2) == old(self).idx_of(r2) by {
                let i = old(self).idx_of(r2);
                assert(post[i].0 == r2);
                self.lemma_idx_unique(i, r2);
            }
        }
        rid
    }

    fn index_of(&self, rid: u32) -> (r: Option<usize>)
        requires
            self.wf(),
        ensures
            match r {
                Some(i) => i < self.entries_seq().len() && self.entries_seq()[i as int].0 == rid
                    && self.idx_of(rid) == i && self.has_rid(rid),
                None => !self.has_rid(rid),
            },
    {
        let n = self.entries.len();
        let mut i: usize = 0;
        while i < n
            invariant
                self.wf(),
                n == self.entries_seq().len(),
                0 <= i <= n,
                forall|j: int| 0 <= j < i ==> (#[trigger] self.entries_seq()[j]).0 != rid,
            decreases n - i,
        {
            if self.entries[i].0 == rid {
                proof {
                    self.lemma_idx_unique(i as int, rid);
                }
                return Some(i);
            }
            i = i + 1;
        }
        None
    }

    /// Whether a resource is registered under `rid`.
    pub fn has(&self, rid: u32) -> (b: bool)
        requires
            self.wf(),
        ensures
            b == self.has_rid(rid),
    {
        self.index_of(rid).is_some()
    }

    /// The resource registered under `rid`, or nothing for an absent handle.
    pub fn get(&self, rid: u32) -> (r: Option<&R>)
        requires
            self.wf(),
        ensures
            match r {
                Some(v) => self.has_rid(rid) && *v == self.res_of(rid),
                None => !self.has_rid(rid),
            },
    {
        match self.index_of(rid) {
            Some(i) => Some(&self.entries[i].2),
            None => None,
        }
    }

    /// The kind tag registered under `rid`, or nothing for an absent handle.
    pub fn get_kind(&self, rid: u32) -> (r: Option<&String>)
        requires
            self.wf(),
        ensures
            match r {
                Some(v) => self.has_rid(rid) && v@ == self.kind_of(rid),
                None => !self.has_rid(rid),
            },
    {
        match self.index_of(rid) {
            Some(i) => Some(&self.entries[i].1),
            None => None,
        }
    }

    /// Exclusive access to the resource registered under `rid`; the handle,
    /// its kind tag and every other entry stay as they are.
    pub fn get_mut(&mut self, rid: u32) -> (r: &mut R)
        requires
            old(self).wf(),
            old(self).has_rid(rid),
        ensures
            *r == old(self).res_of(rid),
            final(self).next_handle() == old(self).next_handle(),
            final(self).entries_seq() == old(self).entries_seq().update(
                old(self).idx_of(rid),
                (rid, old(self).entries_seq()[old(self).idx_of(rid)].1, *final(r)),
            ),
    {
        let idx = match self.index_of(rid) {
            Some(i) => i,
            None => {
                proof {
                    assert(false);
                }
                0
            },
        };
        &mut self.entries[idx].2
    }

    /// After `get_mut` on `rid` wrote `v`, the table holds `v` under `rid`
    /// and every other entry is as it was.
    pub proof fn lemma_after_update(pre: Self, post: Self, rid: u32, v: R)
        requires
            pre.wf(),
            pre.has_rid(rid),
            post.next_handle() == pre.next_handle(),
            post.entries_seq() == pre.entries_seq().update(
                pre.idx_of(rid),
                (rid, pre.entries_seq()[pre.idx_of(rid)].1, v),
            ),
        ensures
            post.wf(),
            post.has_rid(rid),
            post.res_of(rid) == v,
            post.kind_of(rid) == pre.kind_of(rid),
            forall|r2: u32| #[trigger] post.has_rid(r2) == pre.has_rid(r2),
            forall|r2: u32|
                r2 != rid && pre.has_rid(r2) ==> #[trigger] post.res_of(r2) == pre.res_of(r2)
                    && post.kind_of(r2) == pre.kind_of(r2),
    {
        let i = pre.idx_of(rid);
        assert(post.entries_seq()[i].0 == rid);
        post.lemma_idx_unique(i, rid);
        assert forall|r2: u32| #[trigger] post.has_rid(r2) == pre.has_rid(r2) by {
            if pre.has_rid(r2) {
                let j = pre.idx_of(r2);
                assert(post.entries_seq()[j].0 == r2);
            } else if post.has_rid(r2) {
                let j = post.idx_of(r2);
                assert(pre.entries_seq()[j].0 == r2);
            }
        }
        assert forall|r2: u32| r2 != rid && pre.has_rid(r2) implies #[trigger] post.res_of(r2)
            == pre.res_of(r2) && post.kind_of(r2) == pre.kind_of(r2) by {
            let j = pre.idx_of(r2);
            assert(j != i);
            assert(post.entries_seq()[j].0 == r2);
            post.lemma_idx_unique(j, r2);
        }
    }

    /// Removes the entry named `rid` and surrenders its resource; nothing for
    /// an absent handle, and a second close of the same handle finds nothing.
    pub fn close(&mut self, rid: u32) -> (r: Option<R>)
        requires
            old(self).wf(),
        ensures
            final(self).wf(),
            final(self).next_handle() == old(self).next_handle(),
            match r {
                Some(v) => old(self).has_rid(rid) && v == old(self).res_of(rid) && final(self).entries_seq() == old(self).entries_seq().remove(old(self).idx_of(rid)),
                None => !old(self).has_rid(rid) && final(self).entries_seq() == old(self).entries_seq(),
            },
            !final(self).has_rid(rid),
            forall|r2: u32|
                r2 != rid ==> #[trigger] final(self).has_rid(r2) == old(self).has_rid(r2),
            forall|r2: u32|
                r2 != rid && old(self).has_rid(r2) ==> #[trigger] final(self).res_of(r2) == old(self).res_of(r2),
            forall|r2: u32|
                r2 != rid && old(self).has_rid(r2) ==> #[trigger] final(self).kind_of(r2) == old(self).kind_of(r2),
    {
        match self.index_of(rid) {
            None => None,
            Some(i) => {
                let entry = self.entries.remove(i);
                proof {
                    let pre = old(self).entries_seq();
                    let post = self.entries_seq();
                    let pi = i as int;
                    if self.has_rid(rid) {
                        let j = self.idx_of(rid);
                        if j < pi {
                            assert(pre[j].0 == rid);
                            old(self).lemma_idx_unique(j, rid);
                        } else {
                            assert(pre[j + 1].0 == rid);
                            old(self).lemma_idx_unique(j + 1, rid);
                        }
                    }
                    assert forall|r2: u32| r2 != rid implies #[trigger] self.has_rid(r2) == old(self).has_rid(r2) by {
                        if old(self).has_rid(r2) {
                            let j = old(self).idx_of(r2);
                            assert(j != pi);
                            if j < pi {
                                assert(post[j].0 == r2);
                            } else {
                                assert(post[j - 1].0 == r2);
                            }
                        } else if self.has_rid(r2) {
                            let j = self.idx_of(r2);
                            if j < pi {
                                assert(pre[j].0 == r2);
                            } else {
                                assert(pre[j + 1].0 == r2);
                            }
                        }
                    }
                    assert forall|r2: u32| r2 != rid && old(self).has_rid(r2) implies #[trigger] self
                        .res_of(r2) == old(self).res_of(r2) by {
                        let j = old(self).idx_of(r2);
                        assert(j != pi);
                        if j < pi {
                            assert(post[j].0 == r2);
                            self.lemma_idx_unique(j, r2);
                        } else {
                            assert(post[j - 1].0 == r2);
                            self.lemma_idx_unique(j - 1, r2);
                        }
                    }
                    assert forall|r2: u32| r2 != rid && old(self).has_rid(r2) implies #[trigger] self
                        .kind_of(r2) == old(self).kind_of(r2) by {
                        let j = old(self).idx_of(r2);
                        assert(j != pi);
                        if j < pi {
                            assert(post[j].0 == r2);
                            self.lemma_idx_unique(j, r2);
                        } else {
                            assert(post[j - 1].0 == r2);
                            self.lemma_idx_unique(j - 1, r2);
                        }
                    }
                }
                Some(entry.2)
            },
        }
    }

    /// A listing of the live entries as (handle, kind tag) pairs, in table
    /// order.
    pub fn entries(&self) -> (r: Vec<(u32, String)>)
        requires
            self.wf(),
        ensures
            r@.len() == self.entries_seq().len(),
            forall|i: int|
                0 <= i < r@.len() ==> (#[trigger] r@[i]).0 == self.entries_seq()[i].0 && r@[i].1@
                    == self.entries_seq()[i].1@,
    {
        let n = self.entries.len();
        let mut out: Vec<(u32, String)> = Vec::new();
        let mut i: usize = 0;
        while i < n
            invariant
                n == self.entries_seq().len(),
                0 <= i <= n,
                out@.len() == i,
                forall|j: int|
                    0 <= j < i ==> (#[trigger] out@[j]).0 == self.entries_seq()[j].0 && out@[j].1@
                        == self.entries_seq()[j].1@,
            decreases n - i,
        {
            let rid = self.entries[i].0;
            let tag = self.entries[i].1.clone();
            out.push((rid, tag));
            i = i + 1;
        }
        out
    }
}

} // verus!

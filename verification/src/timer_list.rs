//! The idle tracker: associates each live descriptor with the moment it
//! was last active, under one shared idle threshold, and selects on each
//! timer tick the descriptors idle beyond that threshold for eviction.

use vstd::prelude::*;

verus! {

/// Descriptor to last-activity association with a shared idle threshold.
/// Entries are kept as pairs with pairwise distinct descriptors.
pub struct TimerList {
    pub entries: Vec<(i32, u64)>,
    pub timeout: u64,
}

impl View for TimerList {
    type V = Seq<(i32, u64)>;

    open spec fn view(&self) -> Seq<(i32, u64)> {
        self.entries@
    }
}

impl TimerList {
    /// Every descriptor occurs at most once.
    pub open spec fn wf(&self) -> bool {
        forall|i: int, j: int|
            0 <= i < j < self@.len() ==> (#[trigger] self@[i]).0 != (#[trigger] self@[j]).0
    }

    pub open spec fn spec_contains(&self, fd: i32) -> bool {
        exists|i: int| 0 <= i < self@.len() && (#[trigger] self@[i]).0 == fd
    }

    /// An entry last active at `stamp` is due for eviction at `now`.
    pub open spec fn expired_at(&self, stamp: u64, now: u64) -> bool {
        stamp + self.timeout < now
    }

    pub fn new(timeout: u64) -> (t: TimerList)
        ensures
            t@ == Seq::<(i32, u64)>::empty(),
            t.timeout == timeout,
            t.wf(),
    {
        TimerList { entries: Vec::new(), timeout }
    }

    pub fn len(&self) -> (r: usize)
        ensures
            r == self@.len(),
    {
        self.entries.len()
    }

    fn index_of(&self, fd: i32) -> (r: Option<usize>)
        ensures
            match r {
                Some(i) => i < self@.len() && self@[i as int].0 == fd,
                None => !self.spec_contains(fd),
            },
    {
        let mut i: usize = 0;
        while i < self.entries.len()
            invariant
                i <= self@.len(),
                forall|j: int| 0 <= j < i ==> (#[trigger] self@[j]).0 != fd,
            decreases self@.len() - i,
        {
            if self.entries[i].0 == fd {
                return Some(i);
            }
            i = i + 1;
        }
        None
    }

    pub fn contains(&self, fd: i32) -> (r: bool)
        ensures
            r == self.spec_contains(fd),
    {
        self.index_of(fd).is_some()
    }

    /// Drops the entry of `fd`, if any; entries of other descriptors are
    /// untouched.
    pub fn remove(&mut self, fd: i32)
        requires
            old(self).wf(),
        ensures
            final(self).wf(),
            final(self).timeout == old(self).timeout,
            !final(self).spec_contains(fd),
            forall|e: (i32, u64)|
                e.0 != fd ==> (final(self)@.contains(e) <==> old(self)@.contains(e)),
    {
        match self.index_of(fd) {
            Some(i) => {
                self.entries.remove(i);
                proof {
                    let pre = old(self)@;
                    let post = self@;
                    assert forall|p: int, q: int|
                        0 <= p < q < post.len() implies (#[trigger] post[p]).0
                        != (#[trigger] post[q]).0 by {
                        let pi = if p < i { p } else { p + 1 };
                        let qi = if q < i { q } else { q + 1 };
                        assert(post[p] == pre[pi] && post[q] == pre[qi]);
                    }
                    assert forall|k: int| 0 <= k < post.len() implies (#[trigger] post[k]).0
                        != fd by {
                        let k0 = if k < i { k } else { k + 1 };
                        assert(post[k] == pre[k0]);
                    }
                    assert forall|e: (i32, u64)| e.0 != fd && pre.contains(e)
                        implies post.contains(e) by {
                        let k0 = choose|k0: int| 0 <= k0 < pre.len() && pre[k0] == e;
                        let k = if k0 < i { k0 } else { k0 - 1 };
                        assert(post[k] == e);
                    }
                    assert forall|e: (i32, u64)| post.contains(e) implies pre.contains(e) by {
                        let k = choose|k: int| 0 <= k < post.len() && post[k] == e;
                        let k0 = if k < i { k } else { k + 1 };
                        assert(pre[k0] == e);
                    }
                }
            },
            None => {},
        }
    }

    /// Records activity of `fd` at `now`: its entry is created or
    /// refreshed; entries of other descriptors are untouched.
    pub fn touch(&mut self, fd: i32, now: u64)
        requires
            old(self).wf(),
        ensures
            final(self).wf(),
            final(self).timeout == old(self).timeout,
            final(self)@.contains((fd, now)),
            forall|e: (i32, u64)|
                e.0 != fd ==> (final(self)@.contains(e) <==> old(self)@.contains(e)),
    {
        self.remove(fd);
        let ghost mid = self@;
        self.entries.push((fd, now));
        proof {
            assert(self@ == mid.push((fd, now)));
            assert(self@.last() == (fd, now));
            assert forall|p: int, q: int|
                0 <= p < q < self@.len() implies (#[trigger] self@[p]).0
                != (#[trigger] self@[q]).0 by {
                if q == self@.len() - 1 {
                    assert(self@[p] == mid[p]);
                    assert(mid.contains(mid[p]));
                }
            }
            assert forall|e: (i32, u64)| e.0 != fd && self@.contains(e)
                implies mid.contains(e) by {
                let k = choose|k: int| 0 <= k < self@.len() && self@[k] == e;
                assert(self@[k] == mid[k]);
            }
            assert forall|e: (i32, u64)| mid.contains(e) implies self@.contains(e) by {
                let k = choose|k: int| 0 <= k < mid.len() && mid[k] == e;
                assert(self@[k] == e);
            }
        }
    }

    /// Selects the descriptors idle beyond the threshold at `now`: a
    /// descriptor is in the result exactly when its entry is expired.
    pub fn expired(&self, now: u64) -> (r: Vec<i32>)
        requires
            self.wf(),
        ensures
            forall|e: (i32, u64)|
                #[trigger] self@.contains(e) ==> (r@.contains(e.0) <==> self.expired_at(e.1, now)),
            forall|fd: i32| #[trigger] r@.contains(fd) ==> exists|e: (i32, u64)|
                self@.contains(e) && e.0 == fd && self.expired_at(e.1, now),
    {
        let mut r: Vec<i32> = Vec::new();
        let mut i: usize = 0;
        while i < self.entries.len()
            invariant
                self.wf(),
                i <= self@.len(),
                forall|j: int| 0 <= j < i ==> ((#[trigger] r@.contains(self@[j].0))
                    <==> self.expired_at(self@[j].1, now)),
                forall|fd: i32| #[trigger] r@.contains(fd) ==> exists|j: int|
                    0 <= j < i && self@[j].0 == fd && self.expired_at(self@[j].1, now),
            decreases self@.len() - i,
        {
            let (fd, stamp) = self.entries[i];
            if now > stamp && now - stamp > self.timeout {
                let ghost r_pre = r@;
                r.push(fd);
                proof {
                    assert(self.expired_at(stamp, now));
                    assert(r@ == r_pre.push(fd));
                    assert(r@.contains(fd)) by {
                        assert(r@[r@.len() - 1] == fd);
                    }
                    assert forall|f2: i32| r_pre.contains(f2) implies r@.contains(f2) by {
                        let k = choose|k: int| 0 <= k < r_pre.len() && r_pre[k] == f2;
                        assert(r@[k] == f2);
                    }
                    assert forall|f2: i32| #[trigger] r@.contains(f2) && f2 != fd
                        implies r_pre.contains(f2) by {
                        let k = choose|k: int| 0 <= k < r@.len() && r@[k] == f2;
                        assert(r_pre[k] == f2);
                    }
                    assert forall|j: int| 0 <= j < i + 1 implies
                        ((#[trigger] r@.contains(self@[j].0))
                        <==> self.expired_at(self@[j].1, now)) by {
                        if j == i {
                        } else {
                            assert(self@[j].0 != self@[i as int].0);
                            if self.expired_at(self@[j].1, now) {
                                assert(r_pre.contains(self@[j].0));
                            }
                            if r@.contains(self@[j].0) {
                                assert(r_pre.contains(self@[j].0));
                            }
                        }
                    }
                    assert forall|f2: i32| #[trigger] r@.contains(f2) implies exists|j: int|
                        0 <= j < i + 1 && self@[j].0 == f2
                        && self.expired_at(self@[j].1, now) by {
                        if f2 == fd {
                            assert(0 <= i < i + 1 && self@[i as int].0 == fd
                                && self.expired_at(self@[i as int].1, now));
                        } else {
                            assert(r_pre.contains(f2));
                        }
                    }
                }
            } else {
                proof {
                    assert(!self.expired_at(stamp, now));
                    if r@.contains(fd) {
                        let j = choose|j: int| 0 <= j < i && self@[j].0 == fd
                            && self.expired_at(self@[j].1, now);
                        assert(self@[j].0 != self@[i as int].0);
                        assert(false);
                    }
                }
            }
            i = i + 1;
        }
        proof {
            assert forall|e: (i32, u64)| #[trigger] self@.contains(e)
                implies (r@.contains(e.0) <==> self.expired_at(e.1, now)) by {
                let j = choose|j: int| 0 <= j < self@.len() && self@[j] == e;
            }
            assert forall|f2: i32| #[trigger] r@.contains(f2) implies exists|e: (i32, u64)|
                self@.contains(e) && e.0 == f2 && self.expired_at(e.1, now) by {
                let j = choose|j: int|
                    0 <= j < self@.len() && self@[j].0 == f2 && self.expired_at(self@[j].1, now);
                assert(self@.contains(self@[j]));
            }
        }
        r
    }
}

} // verus!

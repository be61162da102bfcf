//! The registry of live socket handles.
//!
//! Every socket the host creates is registered under a stable integer handle;
//! a socket that is explicitly closed is removed. At process teardown the
//! host drains the registry and force-closes whatever is left, so that no
//! descriptor outlives its owner. The registry is an explicit object the host
//! passes around, not hidden global state.

use vstd::prelude::*;

verus! {

/// The sequence `s` with the first occurrence of `h` taken out, if there is
/// one.
pub open spec fn removed(s: Seq<u64>, h: u64) -> Seq<u64>
    decreases s.len(),
{
    if s.len() == 0 {
        s
    } else if s[0] == h {
        s.drop_first()
    } else {
        seq![s[0]] + removed(s.drop_first(), h)
    }
}

proof fn lemma_removed_absent(s: Seq<u64>, h: u64)
    requires
        !s.contains(h),
    ensures
        removed(s, h) == s,
    decreases s.len(),
{
    if s.len() > 0 {
        assert(s[0] != h);
        assert(!s.drop_first().contains(h)) by {
            assert(forall|i: int| 0 <= i < s.drop_first().len() ==> s.drop_first()[i] == s[i + 1]);
        }
        lemma_removed_absent(s.drop_first(), h);
        assert(seq![s[0]] + s.drop_first() =~= s);
    }
}

proof fn lemma_removed_at(s: Seq<u64>, h: u64, i: int)
    requires
        0 <= i < s.len(),
        s[i] == h,
        forall|j: int| 0 <= j < i ==> s[j] != h,
    ensures
        removed(s, h) == s.remove(i),
    decreases i,
{
    if i == 0 {
        assert(removed(s, h) == s.drop_first());
        assert(s.drop_first() =~= s.remove(0));
    } else {
        assert(s[0] != h);
        let t = s.drop_first();
        assert(t[i - 1] == s[i]);
        assert(forall|j: int| 0 <= j < i - 1 ==> t[j] == s[j + 1]);
        lemma_removed_at(t, h, i - 1);
        assert(seq![s[0]] + t.remove(i - 1) =~= s.remove(i));
    }
}

/// Tracks the handles of live sockets so that teardown can close whatever was
/// never explicitly closed.
pub struct Registry {
    handles: Vec<u64>,
}

impl View for Registry {
    type V = Seq<u64>;

    closed spec fn view(&self) -> Seq<u64> {
        self.handles@
    }
}

impl Registry {
    /// Invariant: no handle is registered twice.
    pub open spec fn wf(&self) -> bool {
        forall|i: int, j: int| 0 <= i < j < self@.len() ==> self@[i] != self@[j]
    }

    /// An empty registry.
    pub fn new() -> (r: Registry)
        ensures
            r.wf(),
            r@ == Seq::<u64>::empty(),
    {
        Registry { handles: Vec::new() }
    }

    /// How many sockets are live.
    pub fn len(&self) -> (n: usize)
        ensures
            n == self@.len(),
    {
        self.handles.len()
    }

    /// Whether `h` is registered.
    pub fn contains(&self, h: u64) -> (r: bool)
        ensures
            r == self@.contains(h),
    {
        let n = self.handles.len();
        let mut i: usize = 0;
        while i < n
            invariant
                n == self@.len(),
                i <= n,
                forall|j: int| 0 <= j < i ==> self@[j] != h,
            decreases n - i,
        {
            if self.handles[i] == h {
                return true;
            }
            i = i + 1;
        }
        proof {
            assert(!self@.contains(h));
        }
        false
    }

    /// Register a live handle; registering one that is already present
    /// changes nothing.
    pub fn insert_handle(&mut self, h: u64)
        requires
            old(self).wf(),
        ensures
            final(self).wf(),
            old(self)@.contains(h) ==> final(self)@ == old(self)@,
            !old(self)@.contains(h) ==> final(self)@ == old(self)@.push(h),
            final(self)@.contains(h),
    {
        if self.contains(h) {
            return;
        }
        self.handles.push(h);
        proof {
            assert(self@.last() == h);
            assert(self@.contains(h));
        }
    }

    /// Remove a handle once its socket is explicitly closed; removing one
    /// that is not present changes nothing.
    pub fn remove_handle(&mut self, h: u64)
        requires
            old(self).wf(),
        ensures
            final(self).wf(),
            final(self)@ == removed(old(self)@, h),
            !old(self)@.contains(h) ==> final(self)@ == old(self)@,
            !final(self)@.contains(h),
    {
        let n = self.handles.len();
        let mut i: usize = 0;
        while i < n
            invariant
                old(self).wf(),
                n == self@.len(),
                i <= n,
                self@ == old(self)@,
                forall|j: int| 0 <= j < i ==> self@[j] != h,
            decreases n - i,
        {
            if self.handles[i] == h {
                let ghost before = self@;
                self.handles.remove(i);
                proof {
                    lemma_removed_at(before, h, i as int);
                    assert(forall|m: int|
                        0 <= m < i ==> self@[m] == before[m]) by {
                        assert(self@ == before.subrange(0, i as int) + before.subrange(
                            i as int + 1,
                            before.len() as int,
                        ));
                    }
                    assert(forall|m: int|
                        i <= m < self@.len() ==> self@[m] == before[m + 1]) by {
                        assert(self@ == before.subrange(0, i as int) + before.subrange(
                            i as int + 1,
                            before.len() as int,
                        ));
                    }
                    assert forall|a: int, b: int|
                        0 <= a < b < self@.len() implies self@[a] != self@[b] by {
                        let a0 = if a < i { a } else { a + 1 };
                        let b0 = if b < i { b } else { b + 1 };
                        assert(self@[a] == before[a0]);
                        assert(self@[b] == before[b0]);
                    }
                    assert(!self@.contains(h)) by {
                        if self@.contains(h) {
                            let k = choose|k: int| 0 <= k < self@.len() && self@[k] == h;
                            if k < i {
                                assert(before[k] == h);
                                assert(before[k] != before[i as int]);
                            } else {
                                assert(before[k + 1] == h);
                                assert(before[i as int] != before[k + 1]);
                            }
                        }
                    }
                }
                return;
            }
            i = i + 1;
        }
        proof {
            assert(!self@.contains(h));
            lemma_removed_absent(self@, h);
        }
    }

    /// Drain the registry for process teardown: hand back, in registration
    /// order, every handle still live, for the host to force-close. The
    /// registry is empty afterwards.
    pub fn shutdown_all(&mut self) -> (r: Vec<u64>)
        requires
            old(self).wf(),
        ensures
            final(self).wf(),
            r@ == old(self)@,
            final(self)@ == Seq::<u64>::empty(),
    {
        let mut drained: Vec<u64> = Vec::new();
        core::mem::swap(&mut drained, &mut self.handles);
        drained
    }
}

} // verus!

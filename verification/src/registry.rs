//! The render-target registry: which texture-view handles are in use.
//!
//! The rendering pipeline looks cameras' render targets up by an opaque
//! numeric handle. Each bridged window owns one such handle, chosen at open
//! time so that it collides with no handle already in use; on every resize
//! the registry entry for that handle is replaced by the newly exported
//! view. Handles are drawn at random first and, should every draw collide,
//! found by a bounded scan, so allocation always terminates.

use vstd::prelude::*;
use vstd::set_lib::lemma_int_range;
use vstd::set_lib::lemma_len_subset;
use vstd::set_lib::set_int_range;

verus! {

/// The set of render-target handles currently registered.
pub struct ViewRegistry {
    handles: Vec<u32>,
}

impl ViewRegistry {
    /// No handle is registered twice.
    pub closed spec fn well_formed(&self) -> bool {
        self.handles@.no_duplicates()
    }

    /// Whether `handle` is registered.
    pub closed spec fn in_use(&self, handle: u32) -> bool {
        self.handles@.contains(handle)
    }

    /// How many handles are registered.
    pub closed spec fn handle_count(&self) -> nat {
        self.handles@.len()
    }

    /// An empty registry.
    pub fn new() -> (registry: ViewRegistry)
        ensures
            registry.well_formed(),
            registry.handle_count() == 0,
            forall|h: u32| !registry.in_use(h),
    {
        ViewRegistry { handles: Vec::new() }
    }

    /// How many handles are registered.
    pub fn len(&self) -> (count: usize)
        ensures
            count == self.handle_count(),
    {
        self.handles.len()
    }

    /// Whether `handle` is registered.
    pub fn contains_handle(&self, handle: u32) -> (found: bool)
        ensures
            found == self.in_use(handle),
    {
        let mut i: usize = 0;
        while i < self.handles.len()
            invariant
                i <= self.handles@.len(),
                forall|j: int| 0 <= j < i ==> self.handles@[j] != handle,
            decreases self.handles@.len() - i,
        {
            if self.handles[i] == handle {
                proof {
                    assert(self.handles@.contains(handle)) by {
                        assert(self.handles@[i as int] == handle);
                    }
                }
                return true;
            }
            i = i + 1;
        }
        false
    }

    /// Registers `handle`. Registering one already in use replaces its entry
    /// and registers nothing new.
    pub fn insert_handle(&mut self, handle: u32)
        requires
            old(self).well_formed(),
        ensures
            final(self).well_formed(),
            final(self).in_use(handle),
            forall|h: u32| final(self).in_use(h) <==> (old(self).in_use(h) || h == handle),
            final(self).handle_count() <= old(self).handle_count() + 1,
    {
        if !self.contains_handle(handle) {
            let ghost prior = self.handles@;
            self.handles.push(handle);
            proof {
                assert(self.handles@ == prior.push(handle));
                assert(self.handles@.no_duplicates()) by {
                    assert(forall|i: int, j: int|
                        0 <= i < j < self.handles@.len() ==> self.handles@[i] != self.handles@[j])
                        by {
                        assert(forall|i: int|
                            0 <= i < prior.len() ==> self.handles@[i] == prior[i]);
                        assert(self.handles@[prior.len() as int] == handle);
                        assert(forall|i: int| 0 <= i < prior.len() ==> prior[i] != handle);
                    }
                }
                assert(self.handles@.contains(handle)) by {
                    assert(self.handles@[prior.len() as int] == handle);
                }
                assert forall|h: u32|
                    self.in_use(h) <==> (prior.contains(h) || h == handle) by {
                    if self.handles@.contains(h) {
                        let i = choose|i: int|
                            0 <= i < self.handles@.len() && self.handles@[i] == h;
                        if i < prior.len() {
                            assert(prior[i] == h);
                        }
                    }
                    if prior.contains(h) {
                        let i = choose|i: int| 0 <= i < prior.len() && prior[i] == h;
                        assert(self.handles@[i] == h);
                    }
                    if h == handle {
                        assert(self.handles@[prior.len() as int] == h);
                    }
                }
            }
        }
    }

    /// Draws a handle that is not yet in use. Random draws are tried first;
    /// if every draw collides, the smallest unused handle among `0..=count`
    /// is taken, which exists because fewer handles are registered than
    /// values scanned.
    pub fn fresh_handle(&self) -> (handle: u32)
        requires
            self.well_formed(),
            self.handle_count() < u32::MAX as nat,
        ensures
            !self.in_use(handle),
    {
        let mut attempts: u32 = 0;
        while attempts < 64
            decreases 64 - attempts,
        {
            let candidate: u32 = rand::random::<u32>();
            if !self.contains_handle(candidate) {
                return candidate;
            }
            attempts = attempts + 1;
        }
        let count: u32 = self.handles.len() as u32;
        let mut next: u32 = 0;
        while next <= count
            invariant
                self.well_formed(),
                self.handle_count() == count as nat,
                count < u32::MAX,
                next <= count + 1,
                forall|v: u32| v < next ==> self.in_use(v),
            decreases count + 1 - next,
        {
            if !self.contains_handle(next) {
                return next;
            }
            next = next + 1;
        }
        proof {
            self.lemma_unused_handle_exists(count);
            let v = choose|v: u32| v <= count && !self.in_use(v);
            assert(v < next);
        }
        vstd::pervasive::unreached()
    }

    /// Pigeonhole: a registry of `count` distinct handles cannot contain all
    /// of the `count + 1` values `0..=count`, so one of them is unused.
    proof fn lemma_unused_handle_exists(&self, count: u32)
        requires
            self.well_formed(),
            self.handle_count() == count as nat,
        ensures
            exists|v: u32| v <= count && !self.in_use(v),
    {
        broadcast use vstd::seq_lib::seq_to_set_is_finite;

        if exists|v: u32| v <= count && !self.in_use(v) {
            return;
        }
        assert(forall|v: u32| v <= count ==> self.in_use(v));
        let s = self.handles@;
        let m = s.map_values(|h: u32| h as int);
        assert(m.no_duplicates()) by {
            assert(forall|i: int, j: int|
                0 <= i < s.len() && 0 <= j < s.len() && i != j ==> m[i] != m[j]) by {
                assert(forall|i: int| 0 <= i < s.len() ==> m[i] == s[i] as int);
            }
        }
        m.unique_seq_to_set();
        let scanned = set_int_range(0, count as int + 1);
        assert(scanned.subset_of(m.to_set())) by {
            assert forall|k: int| scanned.contains(k) implies m.to_set().contains(k) by {
                assert(self.in_use(k as u32));
                let idx = choose|idx: int| 0 <= idx < s.len() && s[idx] == k as u32;
                assert(m[idx] == k);
                assert(m.contains(k));
            }
        }
        lemma_len_subset(scanned, m.to_set());
        lemma_int_range(0, count as int + 1);
        assert(count as int + 1 <= count as int);
    }
}

/// Relies on `rand::random`: a freshly drawn value of the standard
/// distribution; nothing is promised of which value comes back.
pub assume_specification<T>[ rand::random::<T> ]() -> (value: T)
    where
        rand::distributions::Standard: rand::distributions::Distribution<T>,
;

/// Two windows allocated one after the other never end up with colliding
/// render-target handles: the first window's handle is registered before the
/// second draws, and a drawn handle is never one in use.
pub proof fn lemma_no_handle_collision(
    before: ViewRegistry,
    after: ViewRegistry,
    first: u32,
    second: u32,
)
    requires
        !before.in_use(first),
        forall|h: u32| after.in_use(h) <==> (before.in_use(h) || h == first),
        !after.in_use(second),
    ensures
        first != second,
{
}

} // verus!

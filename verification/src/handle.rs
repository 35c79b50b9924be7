//! The producer-side handle cache.
//!
//! The canonical enqueue handle lives behind a shared mutex.  Each producer
//! thread clones it once into its own cache on first use and reuses the
//! clone from then on, so the mutex is locked at most once over a thread's
//! whole lifetime, however many log calls it makes.  This module verifies
//! that discipline: the state of one thread's cache, the acquisition step,
//! and the bound on lock acquisitions.

use vstd::prelude::*;

verus! {

/// The state of one producer thread's cache of the enqueue handle.
///
/// `spec_cached` says whether this thread already holds its clone of the
/// canonical handle; `spec_locks` counts how often this thread has locked
/// the shared mutex to obtain one.
pub struct HandleCache {
    cached: bool,
    lock_count: u64,
}

impl HandleCache {
    /// Whether this thread already holds its cached handle.
    pub closed spec fn spec_cached(&self) -> bool {
        self.cached
    }

    /// How often this thread has locked the shared mutex.
    pub closed spec fn spec_locks(&self) -> int {
        self.lock_count as int
    }

    /// A cache is well formed when the mutex was locked exactly once if the
    /// handle is cached, and never otherwise.
    pub open spec fn wf(&self) -> bool {
        self.spec_locks() == if self.spec_cached() {
            1int
        } else {
            0int
        }
    }

    /// What one acquisition does to the cache: nothing when the handle is
    /// already cached; otherwise it locks the mutex once, clones the
    /// canonical handle, and caches the clone.
    pub closed spec fn acquire_step(c: HandleCache) -> HandleCache {
        if c.cached {
            c
        } else {
            HandleCache { cached: true, lock_count: (c.lock_count + 1) as u64 }
        }
    }

    /// The cache after `m` acquisitions.
    pub closed spec fn after_acquires(c: HandleCache, m: nat) -> HandleCache
        decreases m,
    {
        if m == 0 {
            c
        } else {
            HandleCache::acquire_step(HandleCache::after_acquires(c, (m - 1) as nat))
        }
    }

    /// The state of a thread that has not logged yet: no cached handle, no
    /// lock acquisition.
    pub fn new() -> (c: Self)
        ensures
            !c.spec_cached(),
            c.spec_locks() == 0,
            c.wf(),
    {
        HandleCache { cached: false, lock_count: 0 }
    }

    /// Obtains this thread's enqueue handle: checks the cache first, and
    /// only on a miss locks the shared mutex to clone the canonical handle
    /// into the cache.
    pub fn acquire(&mut self)
        requires
            old(self).wf(),
        ensures
            *final(self) == HandleCache::acquire_step(*old(self)),
            final(self).wf(),
            final(self).spec_cached(),
            final(self).spec_locks() == 1,
            old(self).spec_cached() ==> *final(self) == *old(self),
    {
        if !self.cached {
            self.lock_count = self.lock_count + 1;
            self.cached = true;
        }
    }

    /// Whether this thread holds its cached handle.
    pub fn is_cached(&self) -> (b: bool)
        ensures
            b == self.spec_cached(),
    {
        self.cached
    }

    /// How often this thread has locked the shared mutex.
    pub fn lock_acquisitions(&self) -> (n: u64)
        ensures
            n as int == self.spec_locks(),
    {
        self.lock_count
    }

    /// Thread-local handle reuse: however many log calls a thread makes,
    /// the shared mutex is locked at most once — exactly once as soon as
    /// the thread has logged at all, and never before.
    pub proof fn lemma_handle_reuse(c: HandleCache, m: nat)
        requires
            !c.spec_cached(),
            c.spec_locks() == 0,
        ensures
            HandleCache::after_acquires(c, m).wf(),
            HandleCache::after_acquires(c, m).spec_locks() <= 1,
            m >= 1 ==> HandleCache::after_acquires(c, m).spec_cached()
                && HandleCache::after_acquires(c, m).spec_locks() == 1,
            m == 0 ==> HandleCache::after_acquires(c, m) == c,
        decreases m,
    {
        if m >= 1 {
            HandleCache::lemma_handle_reuse(c, (m - 1) as nat);
        }
    }
}

} // verus!

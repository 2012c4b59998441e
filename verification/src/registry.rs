//! The registry: the single source of truth for liveness.
//!
//! Every managed allocation occupies one slot. A slot keeps the generation
//! stamp of its current (or most recent) allocation, the live share count
//! (0 when the slot is free), and the payload itself. Addresses are stable
//! identities: slot `i` answers to address `i + 1`, and address 0 is the
//! null sentinel that no slot ever uses. Freed slots keep their stamp, so a
//! later reallocation at the same address can be minted a strictly newer
//! stamp and stale observers can never be mistaken for the new allocation.

use vstd::prelude::*;

use crate::clock;
use crate::stamp::{first_stamp, next_stamp};

verus! {

struct Slot<T> {
    /// Generation stamp of the current or most recent allocation; always >= 1.
    stamp: u64,
    /// Number of live owners (1 for a unique owner, n for shared ones); 0 = free.
    count: usize,
    /// The payload; present exactly while the slot is occupied.
    val: Option<T>,
}

/// Map from address to (stamp, share count, payload), together with the
/// optional diagnostics ledger counting live allocations.
pub struct Registry<T> {
    slots: Vec<Slot<T>>,
    diag_on: bool,
    diag_live: u64,
}

impl<T> Registry<T> {
    /// Number of addresses that have ever been handed out.
    pub closed spec fn known_count(&self) -> int {
        self.slots@.len() as int
    }

    /// An address that has been handed out at some point (live or freed).
    pub closed spec fn known(&self, addr: usize) -> bool {
        1 <= addr <= self.slots@.len()
    }

    /// An address whose slot currently holds a payload.
    pub closed spec fn live(&self, addr: usize) -> bool {
        self.known(addr) && self.slots@[addr - 1].val is Some
    }

    /// The generation stamp currently recorded at `addr` (meaningful only
    /// when `known(addr)`).
    pub closed spec fn stamp_of(&self, addr: usize) -> u64 {
        self.slots@[addr - 1].stamp
    }

    /// The payload at `addr` (meaningful only when `live(addr)`).
    pub closed spec fn value_of(&self, addr: usize) -> T {
        self.slots@[addr - 1].val->0
    }

    /// The live share count at `addr`; 0 for unknown or freed addresses.
    pub closed spec fn share_count(&self, addr: usize) -> usize {
        if self.known(addr) {
            self.slots@[addr - 1].count
        } else {
            0
        }
    }

    /// Whether the diagnostics ledger is switched on.
    pub closed spec fn diag_enabled(&self) -> bool {
        self.diag_on
    }

    /// The ledger's count of allocations made while it was on and not yet freed.
    pub closed spec fn diag_live(&self) -> u64 {
        self.diag_live
    }

    /// Well-formedness: every slot carries a minted (nonzero) stamp, and
    /// holds a payload exactly while it has live owners.
    pub closed spec fn wf(&self) -> bool {
        forall|i: int|
            0 <= i < self.slots@.len() ==> (#[trigger] self.slots@[i]).stamp >= 1 && (
            self.slots@[i].val is Some <==> self.slots@[i].count >= 1)
    }
}

/// All entries except `except` read the same in `post` as in `pre`.
pub open spec fn same_entries_except<T>(pre: Registry<T>, post: Registry<T>, except: usize) -> bool {
    &&& forall|a: usize|
        #![trigger pre.known(a)]
        #![trigger post.known(a)]
        a != except ==> post.known(a) == pre.known(a)
    &&& forall|a: usize|
        #![trigger pre.live(a)]
        #![trigger post.live(a)]
        a != except ==> post.live(a) == pre.live(a)
    &&& forall|a: usize|
        #![trigger pre.stamp_of(a)]
        #![trigger post.stamp_of(a)]
        a != except && pre.known(a) ==> post.stamp_of(a) == pre.stamp_of(a)
    &&& forall|a: usize|
        #![trigger pre.live(a), pre.stamp_of(a)]
        #![trigger post.live(a), post.stamp_of(a)]
        a != except && pre.live(a) ==> post.stamp_of(a) == pre.stamp_of(a)
    &&& forall|a: usize|
        #![trigger pre.value_of(a)]
        #![trigger post.value_of(a)]
        a != except && pre.live(a) ==> post.value_of(a) == pre.value_of(a)
    &&& forall|a: usize|
        #![trigger pre.share_count(a)]
        #![trigger post.share_count(a)]
        a != except ==> post.share_count(a) == pre.share_count(a)
}

/// Every allocation live in `pre` is untouched in `post`: still live, same
/// stamp, same payload, same share count.
pub open spec fn preserves_live_entries<T>(pre: Registry<T>, post: Registry<T>) -> bool {
    forall|a: usize|
        #![trigger pre.live(a)]
        #![trigger post.live(a)]
        pre.live(a) ==> post.live(a) && post.stamp_of(a) == pre.stamp_of(a) && post.value_of(a)
            == pre.value_of(a) && post.share_count(a) == pre.share_count(a)
}

/// Every entry reads the same in `post` as in `pre`.
pub open spec fn same_entries<T>(pre: Registry<T>, post: Registry<T>) -> bool {
    &&& pre.known_count() == post.known_count()
    &&& same_entries_except(pre, post, 0)
    &&& forall|a: usize| #![trigger pre.value_of(a)] #![trigger post.value_of(a)]
        pre.live(a) ==> post.value_of(a) == pre.value_of(a)
}

/// The ledger after recording one allocation: bumped while enabled.
pub open spec fn diag_after_add<T>(pre: Registry<T>) -> u64 {
    if pre.diag_enabled() && pre.diag_live() < u64::MAX {
        (pre.diag_live() + 1) as u64
    } else {
        pre.diag_live()
    }
}

/// The ledger after recording one deallocation: decremented while enabled.
pub open spec fn diag_after_remove<T>(pre: Registry<T>) -> u64 {
    if pre.diag_enabled() && pre.diag_live() > 0 {
        (pre.diag_live() - 1) as u64
    } else {
        pre.diag_live()
    }
}

impl<T> Registry<T> {
    /// An empty registry: no addresses handed out, diagnostics off.
    pub fn new() -> (m: Self)
        ensures
            m.wf(),
            m.known_count() == 0,
            forall|a: usize| !m.known(a) && !m.live(a),
            !m.diag_enabled(),
            m.diag_live() == 0,
    {
        Registry { slots: Vec::new(), diag_on: false, diag_live: 0 }
    }

    /// The stamp of the live allocation at `addr`, or `None` when nothing
    /// live is registered there. Never fails.
    pub fn stamp_for_address(&self, addr: usize) -> (r: Option<u64>)
        ensures
            r == if self.live(addr) {
                Some(self.stamp_of(addr))
            } else {
                None::<u64>
            },
    {
        if addr >= 1 && addr <= self.slots.len() {
            let slot = &self.slots[addr - 1];
            if slot.val.is_some() {
                Some(slot.stamp)
            } else {
                None
            }
        } else {
            None
        }
    }

    /// Whether a live allocation is registered at `addr`.
    pub fn is_registered(&self, addr: usize) -> (r: bool)
        ensures
            r == self.live(addr),
    {
        self.stamp_for_address(addr).is_some()
    }

    /// The live share count at `addr`; 0 when nothing is registered there.
    pub fn strong_count(&self, addr: usize) -> (r: usize)
        ensures
            r == self.share_count(addr),
    {
        if addr >= 1 && addr <= self.slots.len() {
            self.slots[addr - 1].count
        } else {
            0
        }
    }

    /// First free slot whose stamp still has a successor, if any.
    fn find_free(&self) -> (r: Option<usize>)
        ensures
            r matches Some(i) ==> i < self.slots@.len() && self.slots@[i as int].count == 0
                && self.slots@[i as int].stamp < u64::MAX,
    {
        let mut i: usize = 0;
        let n = self.slots.len();
        while i < n
            invariant
                i <= n,
                n == self.slots@.len(),
            decreases n - i,
        {
            if self.slots[i].count == 0 && self.slots[i].stamp < u64::MAX {
                return Some(i);
            }
            i = i + 1;
        }
        None
    }

    /// Register a new allocation with the given share count: reuse a freed
    /// address under a strictly newer stamp, or mint a fresh address.
    /// Returns the address and the stamp.
    pub(crate) fn add(&mut self, value: T, count: usize) -> (r: (usize, u64))
        requires
            old(self).wf(),
            count >= 1,
            old(self).known_count() < usize::MAX as int,
        ensures
            final(self).wf(),
            final(self).known(r.0) && final(self).live(r.0),
            final(self).stamp_of(r.0) == r.1,
            r.1 >= 1,
            r.0 >= 1,
            final(self).value_of(r.0) == value,
            final(self).share_count(r.0) == count,
            !old(self).live(r.0),
            old(self).known(r.0) ==> r.1 > old(self).stamp_of(r.0),
            old(self).known(r.0) ==> final(self).known_count() == old(self).known_count(),
            !old(self).known(r.0) ==> final(self).known_count() == old(self).known_count() + 1,
            same_entries_except(*old(self), *final(self), r.0),
            preserves_live_entries(*old(self), *final(self)),
            final(self).diag_enabled() == old(self).diag_enabled(),
            final(self).diag_live() == diag_after_add(*old(self)),
    {
        let now = clock::now_millis();
        let addr: usize;
        let st: u64;
        match self.find_free() {
            Some(i) => {
                let prev = self.slots[i].stamp;
                st = next_stamp(prev, now);
                self.slots[i] = Slot { stamp: st, count, val: Some(value) };
                addr = i + 1;
            }
            None => {
                st = first_stamp(now);
                self.slots.push(Slot { stamp: st, count, val: Some(value) });
                addr = self.slots.len();
            }
        }
        if self.diag_on && self.diag_live < u64::MAX {
            self.diag_live = self.diag_live + 1;
        }
        (addr, st)
    }

    /// Deregister the allocation at `addr` and hand its payload back; the
    /// address stays known under its old stamp so stale observers keep
    /// reading as freed.
    pub(crate) fn remove(&mut self, addr: usize) -> (r: T)
        requires
            old(self).wf(),
            old(self).live(addr),
        ensures
            final(self).wf(),
            r == old(self).value_of(addr),
            final(self).known(addr),
            !final(self).live(addr),
            final(self).share_count(addr) == 0,
            final(self).stamp_of(addr) == old(self).stamp_of(addr),
            final(self).known_count() == old(self).known_count(),
            same_entries_except(*old(self), *final(self), addr),
            final(self).diag_enabled() == old(self).diag_enabled(),
            final(self).diag_live() == diag_after_remove(*old(self)),
    {
        let slot = &mut self.slots[addr - 1];
        let v = slot.val.take();
        slot.count = 0;
        if self.diag_on && self.diag_live > 0 {
            self.diag_live = self.diag_live - 1;
        }
        match v {
            Some(x) => x,
            None => vstd::pervasive::unreached(),
        }
    }

    /// One more live share of the allocation at `addr`.
    pub(crate) fn increase_strong(&mut self, addr: usize)
        requires
            old(self).wf(),
            old(self).live(addr),
            old(self).share_count(addr) < usize::MAX,
        ensures
            final(self).wf(),
            final(self).live(addr),
            final(self).stamp_of(addr) == old(self).stamp_of(addr),
            final(self).value_of(addr) == old(self).value_of(addr),
            final(self).share_count(addr) == old(self).share_count(addr) + 1,
            final(self).known_count() == old(self).known_count(),
            same_entries_except(*old(self), *final(self), addr),
            final(self).diag_enabled() == old(self).diag_enabled(),
            final(self).diag_live() == old(self).diag_live(),
    {
        let slot = &mut self.slots[addr - 1];
        slot.count = slot.count + 1;
    }

    /// One fewer live share of the allocation at `addr`; at least one share
    /// must remain, so the payload stays put.
    pub(crate) fn decrease_strong(&mut self, addr: usize)
        requires
            old(self).wf(),
            old(self).live(addr),
            old(self).share_count(addr) >= 2,
        ensures
            final(self).wf(),
            final(self).live(addr),
            final(self).stamp_of(addr) == old(self).stamp_of(addr),
            final(self).value_of(addr) == old(self).value_of(addr),
            final(self).share_count(addr) == old(self).share_count(addr) - 1,
            final(self).known_count() == old(self).known_count(),
            same_entries_except(*old(self), *final(self), addr),
            final(self).diag_enabled() == old(self).diag_enabled(),
            final(self).diag_live() == old(self).diag_live(),
    {
        let slot = &mut self.slots[addr - 1];
        slot.count = slot.count - 1;
    }

    /// Read access to the payload at `addr`.
    pub(crate) fn value_ref(&self, addr: usize) -> (r: &T)
        requires
            self.wf(),
            self.live(addr),
        ensures
            *r == self.value_of(addr),
    {
        let slot = &self.slots[addr - 1];
        match &slot.val {
            Some(v) => v,
            None => vstd::pervasive::unreached(),
        }
    }

    /// Write access to the payload at `addr`; everything but that payload
    /// is left as it was.
    pub(crate) fn value_mut(&mut self, addr: usize) -> (r: &mut T)
        requires
            old(self).wf(),
            old(self).live(addr),
        ensures
            *r == old(self).value_of(addr),
            final(self).wf(),
            final(self).live(addr),
            final(self).value_of(addr) == *final(r),
            final(self).stamp_of(addr) == old(self).stamp_of(addr),
            final(self).share_count(addr) == old(self).share_count(addr),
            final(self).known_count() == old(self).known_count(),
            same_entries_except(*old(self), *final(self), addr),
            final(self).diag_enabled() == old(self).diag_enabled(),
            final(self).diag_live() == old(self).diag_live(),
    {
        let slot = &mut self.slots[addr - 1];
        match &mut slot.val {
            Some(v) => v,
            None => vstd::pervasive::unreached(),
        }
    }

    /// Switch the diagnostics ledger; turning it on starts counting from 0.
    pub fn enable_diagnostics(&mut self, on: bool)
        ensures
            final(self).wf() == old(self).wf(),
            final(self).diag_enabled() == on,
            final(self).diag_live() == if on && !old(self).diag_enabled() {
                0u64
            } else {
                old(self).diag_live()
            },
            final(self).known_count() == old(self).known_count(),
            same_entries(*old(self), *final(self)),
    {
        if on && !self.diag_on {
            self.diag_live = 0;
        }
        self.diag_on = on;
    }

    /// What the ledger has counted: allocations made while it was on that
    /// are still live.
    pub fn live_count(&self) -> (r: u64)
        ensures
            r == self.diag_live(),
    {
        self.diag_live
    }
}

/// A live address is a real one: the null sentinel 0 is never live, and in
/// a well-formed registry a live address always carries a minted (nonzero)
/// stamp.
pub proof fn lemma_live_is_real<T>(m: Registry<T>, addr: usize)
    requires
        m.live(addr),
    ensures
        addr >= 1,
        m.known(addr),
        m.wf() ==> m.stamp_of(addr) >= 1,
{
}

impl<T> Default for Registry<T> {
    fn default() -> (m: Self)
        ensures
            m.wf(),
            m.known_count() == 0,
            forall|a: usize| !m.known(a) && !m.live(a),
            !m.diag_enabled(),
            m.diag_live() == 0,
    {
        Registry::new()
    }
}

} // verus!

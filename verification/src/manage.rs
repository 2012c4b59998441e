//! The named-resource store: a name-keyed collection of owning handles that
//! hands out weak observers.
//!
//! Loading resources from disk belongs to the callers who own the loaders;
//! the store itself is pure bookkeeping: names are unique, every stored
//! handle owns a live allocation in the registry it is used with, and no
//! two stored handles share an address.

use vstd::prelude::*;

use crate::own::Own;
use crate::registry::Registry;
use crate::weak::Weak;

verus! {

/// Name-keyed storage of owning handles.
pub struct DataStorage<T> {
    entries: Vec<(String, Own<T>)>,
}

impl<T> DataStorage<T> {
    /// Number of stored resources.
    pub closed spec fn spec_len(&self) -> int {
        self.entries@.len() as int
    }

    /// Whether a resource is stored under `name`.
    pub closed spec fn contains_name(&self, name: Seq<char>) -> bool {
        exists|i: int| 0 <= i < self.entries@.len() && self.entries@[i].0@ == name
    }

    /// The position of the resource stored under `name` (meaningful only
    /// when `contains_name(name)`; unique because names are).
    spec fn index_of(&self, name: Seq<char>) -> int {
        choose|i: int| 0 <= i < self.entries@.len() && self.entries@[i].0@ == name
    }

    /// The address of the resource stored under `name`.
    pub closed spec fn addr_of(&self, name: Seq<char>) -> usize {
        self.entries@[self.index_of(name)].1.spec_addr()
    }

    /// The stamp of the resource stored under `name`.
    pub closed spec fn stamp_of(&self, name: Seq<char>) -> u64 {
        self.entries@[self.index_of(name)].1.spec_stamp()
    }

    /// Whether some resource is stored at address `addr`.
    pub closed spec fn contains_addr(&self, addr: usize) -> bool {
        exists|i: int| 0 <= i < self.entries@.len() && self.entries@[i].1.spec_addr() == addr
    }

    /// The store's intrinsic shape: no name and no address is stored twice.
    pub closed spec fn names_unique(&self) -> bool {
        &&& forall|i: int, j: int|
            0 <= i < j < self.entries@.len() ==> (#[trigger] self.entries@[i]).0@ != (
            #[trigger] self.entries@[j]).0@
        &&& forall|i: int, j: int|
            0 <= i < j < self.entries@.len() ==> (#[trigger] self.entries@[i]).1.spec_addr() != (
            #[trigger] self.entries@[j]).1.spec_addr()
    }

    /// The store's tie to its registry: its shape holds and every stored
    /// handle owns a live allocation there.
    pub closed spec fn wf_in(&self, m: Registry<T>) -> bool {
        &&& self.names_unique()
        &&& forall|i: int|
            0 <= i < self.entries@.len() ==> (#[trigger] self.entries@[i]).1.lives_in(m)
    }

    /// An empty store, well-formed for any registry.
    pub fn new() -> (s: Self)
        ensures
            s.spec_len() == 0,
            forall|name: Seq<char>| !s.contains_name(name),
            forall|addr: usize| !s.contains_addr(addr),
            forall|m: Registry<T>| s.wf_in(m),
    {
        DataStorage { entries: Vec::new() }
    }

    /// Number of stored resources.
    pub fn len(&self) -> (r: usize)
        ensures
            r == self.spec_len(),
    {
        self.entries.len()
    }

    /// The position of the entry stored under `name`, if any.
    fn find_index(&self, name: &String) -> (r: Option<usize>)
        ensures
            r matches Some(i) ==> i < self.entries@.len() && self.entries@[i as int].0@ == name@
                && self.contains_name(name@),
            r is None ==> !self.contains_name(name@),
    {
        let mut i: usize = 0;
        let n = self.entries.len();
        while i < n
            invariant
                i <= n,
                n == self.entries@.len(),
                forall|j: int| 0 <= j < i ==> (#[trigger] self.entries@[j]).0@ != name@,
            decreases n - i,
        {
            if self.entries[i].0 == *name {
                return Some(i);
            }
            i = i + 1;
        }
        None
    }

    /// The position of the entry holding the allocation at `addr`, if any.
    fn find_addr(&self, addr: usize) -> (r: Option<usize>)
        ensures
            r matches Some(i) ==> i < self.entries@.len() && self.entries@[i as int].1.spec_addr()
                == addr && self.contains_addr(addr),
            r is None ==> !self.contains_addr(addr),
    {
        let mut i: usize = 0;
        let n = self.entries.len();
        while i < n
            invariant
                i <= n,
                n == self.entries@.len(),
                forall|j: int| 0 <= j < i ==> (#[trigger] self.entries@[j]).1.spec_addr() != addr,
            decreases n - i,
        {
            if self.entries[i].1.addr() == addr {
                return Some(i);
            }
            i = i + 1;
        }
        None
    }

    /// Whether some resource is stored at address `addr`.
    pub fn contains_address(&self, addr: usize) -> (r: bool)
        ensures
            r == self.contains_addr(addr),
    {
        self.find_addr(addr).is_some()
    }

    /// A weak handle to the resource stored under `name`, if any.
    pub fn get_existing(&self, name: &String) -> (r: Option<Weak<T>>)
        requires
            self.names_unique(),
        ensures
            r is Some <==> self.contains_name(name@),
            r matches Some(w) ==> w.spec_addr() == self.addr_of(name@) && w.spec_stamp()
                == self.stamp_of(name@),
    {
        match self.find_index(name) {
            Some(i) => {
                let w = self.entries[i].1.weak();
                proof {
                    self.lemma_index_unique(name@, i as int);
                }
                Some(w)
            }
            None => None,
        }
    }

    /// Remove the entry at position `i` and free its allocation. The last
    /// entry moves into the hole, so the store shrinks by one and every
    /// other resource keeps its handle.
    fn remove_at(&mut self, m: &mut Registry<T>, i: usize)
        requires
            old(self).wf_in(*old(m)),
            old(m).wf(),
            i < old(self).entries@.len(),
        ensures
            final(m).wf(),
            final(self).wf_in(*final(m)),
            final(self).entries@ == old(self).entries@.update(
                i as int,
                old(self).entries@.last(),
            ).drop_last(),
            !final(m).live(old(self).entries@[i as int].1.spec_addr()),
            crate::registry::same_entries_except(
                *old(m),
                *final(m),
                old(self).entries@[i as int].1.spec_addr(),
            ),
            final(m).known_count() == old(m).known_count(),
            final(m).diag_enabled() == old(m).diag_enabled(),
            final(m).diag_live() == crate::registry::diag_after_remove(*old(m)),
    {
        let ghost pre = *self;
        let ghost m_pre = *m;
        let (_, own) = self.entries.swap_remove(i);
        own.free(m);
        proof {
            let freed = pre.entries@[i as int].1.spec_addr();
            assert forall|k: int| 0 <= k < self.entries@.len() implies (
            #[trigger] self.entries@[k]) == pre.entries@[
                if k == i {
                    pre.entries@.len() - 1
                } else {
                    k
                }
            ] by {}
            assert forall|k: int| 0 <= k < self.entries@.len() implies (
            #[trigger] self.entries@[k]).1.lives_in(*m) by {
                let src = if k == i {
                    pre.entries@.len() - 1
                } else {
                    k
                };
                assert(pre.entries@[src].1.lives_in(m_pre));
                assert(src != i);
                assert(pre.entries@[src].1.spec_addr() != freed);
                crate::registry::lemma_live_is_real(m_pre, pre.entries@[src].1.spec_addr());
            }
        }
    }

    /// The resource stored under `name`, created and registered on first
    /// use: a weak handle to the stored allocation, which is live either
    /// way. An already-stored resource is handed out untouched; `create`
    /// runs only when the name is new.
    pub fn add_with_name<F: FnOnce() -> T>(
        &mut self,
        m: &mut Registry<T>,
        name: &String,
        create: F,
    ) -> (w: Weak<T>)
        requires
            old(self).wf_in(*old(m)),
            old(m).wf(),
            old(m).known_count() < usize::MAX as int,
            !old(self).contains_name(name@) ==> call_requires(create, ()),
        ensures
            final(m).wf(),
            final(self).wf_in(*final(m)),
            final(self).contains_name(name@),
            w.spec_addr() == final(self).addr_of(name@),
            w.spec_stamp() == final(self).stamp_of(name@),
            w.is_ok_in(*final(m)),
            old(self).contains_name(name@) ==> *final(self) == *old(self) && *final(m) == *old(m),
            !old(self).contains_name(name@) ==> {
                &&& final(self).spec_len() == old(self).spec_len() + 1
                &&& call_ensures(create, (), final(m).value_of(w.spec_addr()))
                &&& !old(m).live(w.spec_addr())
                &&& crate::registry::preserves_live_entries(*old(m), *final(m))
                &&& forall|other: Seq<char>|
                    other != name@ ==> final(self).contains_name(other) == old(
                    self,
                    ).contains_name(other)
            },
    {
        let ghost pre = *self;
        let ghost m_pre = *m;
        match self.find_index(name) {
            Some(i) => {
                let w = self.entries[i].1.weak();
                proof {
                    self.lemma_index_unique(name@, i as int);
                }
                w
            }
            None => {
                let own = Own::new(m, create());
                let w = own.weak();
                self.entries.push((name.clone(), own));
                proof {
                    let n = pre.entries@.len() as int;
                    assert(self.entries@.len() == n + 1);
                    assert(self.entries@[n].0@ == name@);
                    assert(self.entries@[n].1.spec_addr() == w.spec_addr());
                    assert forall|k: int| 0 <= k < n implies (#[trigger] self.entries@[k])
                        == pre.entries@[k] by {}
                    assert forall|k: int| 0 <= k < n implies (#[trigger] self.entries@[k]).1.lives_in(
                        *m,
                    ) && self.entries@[k].1.spec_addr() != w.spec_addr() && self.entries@[k].0@
                        != name@ by {
                        assert(pre.entries@[k].1.lives_in(m_pre));
                        crate::registry::lemma_live_is_real(m_pre, pre.entries@[k].1.spec_addr());
                    }
                    self.lemma_index_unique(name@, n);
                    assert forall|other: Seq<char>|
                        other != name@ && self.contains_name(other) implies pre.contains_name(
                        other,
                    ) by {
                        let k = choose|k: int|
                            0 <= k < self.entries@.len() && (#[trigger] self.entries@[k]).0@
                                == other;
                        assert(k != n);
                        assert(pre.entries@[k].0@ == other);
                    }
                    assert forall|other: Seq<char>|
                        other != name@ && pre.contains_name(other) implies self.contains_name(
                        other,
                    ) by {
                        let k = choose|k: int|
                            0 <= k < pre.entries@.len() && (#[trigger] pre.entries@[k]).0@
                                == other;
                        assert(self.entries@[k].0@ == other);
                    }
                }
                w
            }
        }
    }

    /// Drop the resource stored under `name`, if any: the entry leaves the
    /// store and its allocation is freed, so observers of it go null; every
    /// other resource is untouched.
    pub fn free_with_name(&mut self, m: &mut Registry<T>, name: &String)
        requires
            old(self).wf_in(*old(m)),
            old(m).wf(),
        ensures
            final(m).wf(),
            final(self).wf_in(*final(m)),
            !final(self).contains_name(name@),
            !old(self).contains_name(name@) ==> *final(self) == *old(self) && *final(m) == *old(
                m,
            ),
            old(self).contains_name(name@) ==> {
                &&& final(self).spec_len() == old(self).spec_len() - 1
                &&& !final(m).live(old(self).addr_of(name@))
                &&& crate::registry::same_entries_except(
                    *old(m),
                    *final(m),
                    old(self).addr_of(name@),
                )
                &&& forall|other: Seq<char>|
                    other != name@ ==> final(self).contains_name(other) == old(
                    self,
                    ).contains_name(other)
            },
    {
        let ghost pre = *self;
        match self.find_index(name) {
            Some(i) => {
                proof {
                    self.lemma_index_unique(name@, i as int);
                }
                self.remove_at(m, i);
                proof {
                    pre.lemma_removed_names(*self, i as int);
                    assert(!self.contains_name(name@));
                }
            }
            None => {}
        }
    }

    /// Drop the resource `handle` observes: its entry leaves the store and
    /// its allocation is freed. A null handle is ignored; a valid handle
    /// must name a stored resource (elsewhere a foreign one aborts here).
    pub fn free(&mut self, m: &mut Registry<T>, handle: Weak<T>)
        requires
            old(self).wf_in(*old(m)),
            old(m).wf(),
            handle.is_ok_in(*old(m)) ==> old(self).contains_addr(handle.spec_addr()),
        ensures
            final(m).wf(),
            final(self).wf_in(*final(m)),
            !handle.is_ok_in(*old(m)) ==> *final(self) == *old(self) && *final(m) == *old(m),
            handle.is_ok_in(*old(m)) ==> {
                &&& final(self).spec_len() == old(self).spec_len() - 1
                &&& !final(m).live(handle.spec_addr())
                &&& !handle.is_ok_in(*final(m))
                &&& !final(self).contains_addr(handle.spec_addr())
                &&& crate::registry::same_entries_except(
                    *old(m),
                    *final(m),
                    handle.spec_addr(),
                )
            },
    {
        let ghost pre = *self;
        if handle.is_null(m) {
            return ;
        }
        match self.find_addr(handle.addr()) {
            Some(i) => {
                self.remove_at(m, i);
                proof {
                    pre.lemma_removed_addrs(*self, i as int);
                }
            }
            None => {
                proof {
                    assert(false);
                }
            }
        }
    }

    /// After removing position `i`, exactly the other entries' names remain.
    proof fn lemma_removed_names(self, post: Self, i: int)
        requires
            self.names_unique(),
            0 <= i < self.entries@.len(),
            post.entries@ == self.entries@.update(i, self.entries@.last()).drop_last(),
        ensures
            !post.contains_name(self.entries@[i].0@),
            forall|other: Seq<char>|
                other != self.entries@[i].0@ ==> post.contains_name(other)
                    == self.contains_name(other),
    {
        let name = self.entries@[i].0@;
        assert forall|k: int| 0 <= k < post.entries@.len() implies (
        #[trigger] post.entries@[k]).0@ != name by {
            let src = if k == i {
                self.entries@.len() - 1
            } else {
                k
            };
            assert(post.entries@[k] == self.entries@[src]);
            assert(src != i ==> self.entries@[src].0@ != self.entries@[i].0@);
        }
        assert forall|other: Seq<char>|
            other != name && self.contains_name(other) implies post.contains_name(other) by {
            let k = choose|k: int|
                0 <= k < self.entries@.len() && (#[trigger] self.entries@[k]).0@ == other;
            if k == self.entries@.len() - 1 && k != i {
                assert(post.entries@[i] == self.entries@[k]);
                assert(post.contains_name(other));
            } else {
                assert(k != i);
                assert(post.entries@[k] == self.entries@[k]);
            }
        }
        assert forall|other: Seq<char>|
            other != name && post.contains_name(other) implies self.contains_name(other) by {
            let k = choose|k: int|
                0 <= k < post.entries@.len() && (#[trigger] post.entries@[k]).0@ == other;
            let src = if k == i {
                self.entries@.len() - 1
            } else {
                k
            };
            assert(post.entries@[k] == self.entries@[src]);
        }
    }

    /// After removing position `i`, exactly the other entries' addresses
    /// remain.
    proof fn lemma_removed_addrs(self, post: Self, i: int)
        requires
            self.names_unique(),
            0 <= i < self.entries@.len(),
            post.entries@ == self.entries@.update(i, self.entries@.last()).drop_last(),
        ensures
            !post.contains_addr(self.entries@[i].1.spec_addr()),
            forall|a: usize|
                a != self.entries@[i].1.spec_addr() ==> post.contains_addr(a)
                    == self.contains_addr(a),
    {
        let addr = self.entries@[i].1.spec_addr();
        assert forall|k: int| 0 <= k < post.entries@.len() implies (
        #[trigger] post.entries@[k]).1.spec_addr() != addr by {
            let src = if k == i {
                self.entries@.len() - 1
            } else {
                k
            };
            assert(post.entries@[k] == self.entries@[src]);
            assert(src != i ==> self.entries@[src].1.spec_addr() != self.entries@[i].1.spec_addr());
        }
        assert forall|a: usize|
            a != addr && self.contains_addr(a) implies post.contains_addr(a) by {
            let k = choose|k: int|
                0 <= k < self.entries@.len() && (#[trigger] self.entries@[k]).1.spec_addr() == a;
            if k == self.entries@.len() - 1 && k != i {
                assert(post.entries@[i] == self.entries@[k]);
                assert(post.contains_addr(a));
            } else {
                assert(k != i);
                assert(post.entries@[k] == self.entries@[k]);
            }
        }
        assert forall|a: usize|
            a != addr && post.contains_addr(a) implies self.contains_addr(a) by {
            let k = choose|k: int|
                0 <= k < post.entries@.len() && (#[trigger] post.entries@[k]).1.spec_addr() == a;
            let src = if k == i {
                self.entries@.len() - 1
            } else {
                k
            };
            assert(post.entries@[k] == self.entries@[src]);
        }
    }

    /// Names are unique, so any position holding `name` is the chosen one.
    proof fn lemma_index_unique(&self, name: Seq<char>, i: int)
        requires
            self.names_unique(),
            0 <= i < self.entries@.len(),
            self.entries@[i].0@ == name,
        ensures
            self.index_of(name) == i,
    {
        let j = self.index_of(name);
        assert(self.entries@[i].0@ == name);
        assert(0 <= j < self.entries@.len() && self.entries@[j].0@ == name);
        if i < j {
            assert(self.entries@[i].0@ != self.entries@[j].0@);
        } else if j < i {
            assert(self.entries@[j].0@ != self.entries@[i].0@);
        }
    }
}

/// A weak handle taken from a well-formed store observes a live allocation:
/// what the store hands out under a stored name is never stale.
pub proof fn lemma_stored_weak_is_ok<T>(s: &DataStorage<T>, m: Registry<T>, name: Seq<char>)
    requires
        s.wf_in(m),
        s.contains_name(name),
    ensures
        s.addr_of(name) != 0,
        m.live(s.addr_of(name)),
        m.stamp_of(s.addr_of(name)) == s.stamp_of(name),
{
    let i = s.index_of(name);
    assert(s.entries@[i].1.lives_in(m));
}

} // verus!

//! The table of live registrations as a mathematical value, and what holds of
//! it over every sequence of registrations, removals and firings.
use vstd::prelude::*;

verus! {

/// One registration: a handle, the slot stored under it, and whether the
/// registration is for one firing only. `S` is whatever a slot is.
pub struct Entry<S> {
    /// The handle that the registration was issued.
    pub handle: nat,
    /// What was registered.
    pub slot: S,
    /// Whether the registration ends with the first firing that runs its
    /// callback.
    pub one_shot: bool,
}

/// A handle counter and the live registrations in the order they were made.
pub struct Registry<S> {
    /// The handle issued last; 0 before the first registration.
    pub counter: nat,
    /// The live registrations, oldest first.
    pub entries: Seq<Entry<S>>,
}

/// One step in the life of a table.
pub enum Op<S> {
    /// Store a slot under a fresh handle, for one firing only or for good.
    Register(S, bool),
    /// Drop the registration under a handle, if there is one.
    Remove(nat),
    /// Fire a handle; the flag says whether its callback ran.
    Fire(nat, bool),
}

impl<S> Registry<S> {
    /// The table before anything was registered.
    pub open spec fn empty() -> Self {
        Registry { counter: 0, entries: Seq::empty() }
    }

    /// The handles of the live registrations, oldest first.
    pub open spec fn handles(self) -> Seq<nat> {
        Seq::new(self.entries.len(), |i: int| self.entries[i].handle)
    }

    /// That `handle` is registered.
    pub open spec fn contains(self, handle: nat) -> bool {
        exists|i: int| 0 <= i < self.entries.len() && self.entries[i].handle == handle
    }

    /// That `i` is the index of the oldest registration under `handle`.
    pub open spec fn is_first(self, handle: nat, i: int) -> bool {
        &&& 0 <= i < self.entries.len()
        &&& self.entries[i].handle == handle
        &&& forall|j: int| 0 <= j < i ==> self.entries[j].handle != handle
    }

    /// The index of the oldest registration under `handle`, where `handle` is
    /// registered.
    pub open spec fn position(self, handle: nat) -> int {
        choose|i: int| self.is_first(handle, i)
    }

    /// The slot registered under `handle`, if any.
    pub open spec fn lookup(self, handle: nat) -> Option<S> {
        if self.contains(handle) {
            Some(self.entries[self.position(handle)].slot)
        } else {
            None
        }
    }

    /// That `handle` is registered for one firing only.
    pub open spec fn one_shot(self, handle: nat) -> bool {
        self.contains(handle) && self.entries[self.position(handle)].one_shot
    }

    /// The handle that the next registration returns.
    pub open spec fn next_handle(self) -> nat {
        self.counter + 1
    }

    /// The table after `slot` was registered, under `next_handle()`.
    pub open spec fn register(self, slot: S, one_shot: bool) -> Self {
        Registry {
            counter: self.counter + 1,
            entries: self.entries.push(
                Entry { handle: (self.counter + 1) as nat, slot, one_shot },
            ),
        }
    }

    /// The table after the registration under `handle` was removed; the same
    /// table where there was none.
    pub open spec fn remove(self, handle: nat) -> Self {
        if self.contains(handle) {
            Registry { counter: self.counter, entries: self.entries.remove(self.position(handle)) }
        } else {
            self
        }
    }

    /// The table after `handle` was fired, where `called` says whether its
    /// callback ran. A registration for one firing only ends when its callback
    /// ran; every other firing leaves the table as it is.
    pub open spec fn fired(self, handle: nat, called: bool) -> Self {
        if called && self.one_shot(handle) {
            self.remove(handle)
        } else {
            self
        }
    }

    /// The table after one step.
    pub open spec fn step(self, op: Op<S>) -> Self {
        match op {
            Op::Register(slot, one_shot) => self.register(slot, one_shot),
            Op::Remove(handle) => self.remove(handle),
            Op::Fire(handle, called) => self.fired(handle, called),
        }
    }

    /// The table after the steps of `ops`, taken in order.
    pub open spec fn run(self, ops: Seq<Op<S>>) -> Self
        decreases ops.len(),
    {
        if ops.len() == 0 {
            self
        } else {
            self.run(ops.drop_last()).step(ops.last())
        }
    }

    /// The handles that the registrations among `ops` return, in order, when
    /// `ops` is run on this table.
    pub open spec fn issued(self, ops: Seq<Op<S>>) -> Seq<nat>
        decreases ops.len(),
    {
        if ops.len() == 0 {
            Seq::empty()
        } else {
            let before = self.issued(ops.drop_last());
            match ops.last() {
                Op::Register(_, _) => before.push(self.run(ops.drop_last()).next_handle()),
                Op::Remove(_) => before,
                Op::Fire(_, _) => before,
            }
        }
    }

    /// What every table reached from `empty()` satisfies: handles grow with
    /// the age of the registration, so no handle is registered twice, and none
    /// is 0 or beyond the counter.
    pub open spec fn wf(self) -> bool {
        &&& forall|i: int, j: int|
            0 <= i < j < self.entries.len() ==> self.entries[i].handle < self.entries[j].handle
        &&& forall|i: int|
            0 <= i < self.entries.len() ==> 1 <= (#[trigger] self.entries[i]).handle <= self.counter
    }

    /// An index that holds `handle` with no older one that does is
    /// `position(handle)`.
    pub proof fn lemma_position(self, handle: nat, i: int)
        requires
            self.is_first(handle, i),
        ensures
            self.contains(handle),
            self.position(handle) == i,
            self.lookup(handle) == Some(self.entries[i].slot),
    {
        let p = self.position(handle);
        assert(self.is_first(handle, p));
    }

    /// A registered handle has a first position.
    pub proof fn lemma_contains(self, handle: nat)
        requires
            self.contains(handle),
        ensures
            self.is_first(handle, self.position(handle)),
    {
        let k = choose|i: int| 0 <= i < self.entries.len() && self.entries[i].handle == handle;
        self.lemma_first_upto(handle, k);
    }

    proof fn lemma_first_upto(self, handle: nat, k: int)
        requires
            0 <= k < self.entries.len(),
            self.entries[k].handle == handle,
        ensures
            exists|i: int| self.is_first(handle, i),
        decreases k,
    {
        if exists|j: int| 0 <= j < k && self.entries[j].handle == handle {
            let j = choose|j: int| 0 <= j < k && self.entries[j].handle == handle;
            self.lemma_first_upto(handle, j);
        } else {
            assert(self.is_first(handle, k));
        }
    }

    /// Registering in a well formed table issues a handle that was not
    /// registered before, stores the slot under it, leaves every other handle
    /// with what it had, and leaves the table well formed.
    pub proof fn law_register(self, slot: S, one_shot: bool)
        requires
            self.wf(),
        ensures
            !self.contains(self.next_handle()),
            self.register(slot, one_shot).lookup(self.next_handle()) == Some(slot),
            self.register(slot, one_shot).one_shot(self.next_handle()) == one_shot,
            forall|other: nat|
                other != self.next_handle() ==> {
                    &&& self.register(slot, one_shot).lookup(other) == self.lookup(other)
                    &&& self.register(slot, one_shot).one_shot(other) == self.one_shot(other)
                },
            self.register(slot, one_shot).wf(),
    {
        let after = self.register(slot, one_shot);
        let fresh = self.next_handle();
        let n = self.entries.len() as int;
        after.lemma_position(fresh, n);
        assert forall|other: nat| other != fresh implies after.lookup(other) == self.lookup(
            other,
        ) && after.one_shot(other) == self.one_shot(other) by {
            if self.contains(other) {
                self.lemma_contains(other);
                let i = self.position(other);
                after.lemma_position(other, i);
            }
        }
    }

    /// Removing a handle leaves every other handle with what it had. This
    /// holds in every table, well formed or not.
    pub proof fn law_remove_spares_others(self, handle: nat)
        ensures
            forall|other: nat|
                other != handle ==> {
                    &&& self.remove(handle).lookup(other) == self.lookup(other)
                    &&& self.remove(handle).one_shot(other) == self.one_shot(other)
                },
    {
        if self.contains(handle) {
            self.lemma_contains(handle);
            let p = self.position(handle);
            let after = self.remove(handle);
            assert forall|other: nat| other != handle implies after.lookup(other) == self.lookup(
                other,
            ) && after.one_shot(other) == self.one_shot(other) by {
                if self.contains(other) {
                    self.lemma_contains(other);
                    let i = self.position(other);
                    let k = if i < p {
                        i
                    } else {
                        i - 1
                    };
                    assert(after.is_first(other, k));
                    after.lemma_position(other, k);
                }
            }
        }
    }

    /// Removing from a well formed table leaves nothing under the handle
    /// removed, does not touch the counter, and leaves the table well formed.
    pub proof fn law_remove(self, handle: nat)
        requires
            self.wf(),
        ensures
            self.remove(handle).lookup(handle) is None,
            self.remove(handle).counter == self.counter,
            self.remove(handle).wf(),
    {
        if self.contains(handle) {
            self.lemma_contains(handle);
            let p = self.position(handle);
            let after = self.remove(handle);
            assert forall|i: int| 0 <= i < after.entries.len() implies after.entries[i].handle
                != handle by {}
        }
    }

    /// A handle that is not registered is ignored: looking it up finds
    /// nothing, and removing or firing it leaves the table exactly as it was.
    pub proof fn law_unknown_handle(self, handle: nat, called: bool)
        requires
            !self.contains(handle),
        ensures
            self.lookup(handle) is None,
            self.remove(handle) == self,
            self.fired(handle, called) == self,
    {
    }

    /// A registration for one firing only ends with the firing that runs its
    /// callback: nothing is found under the handle afterwards. Every other
    /// firing changes nothing: one whose callback did not run, and one of a
    /// handle registered for good. No firing touches another handle, the
    /// counter, or the table's being well formed.
    pub proof fn law_fired(self, handle: nat, called: bool)
        requires
            self.wf(),
        ensures
            called && self.one_shot(handle) ==> self.fired(handle, called).lookup(handle) is None,
            !(called && self.one_shot(handle)) ==> self.fired(handle, called) == self,
            forall|other: nat|
                other != handle ==> {
                    &&& self.fired(handle, called).lookup(other) == self.lookup(other)
                    &&& self.fired(handle, called).one_shot(other) == self.one_shot(other)
                },
            self.fired(handle, called).counter == self.counter,
            self.fired(handle, called).wf(),
    {
        self.law_remove(handle);
        self.law_remove_spares_others(handle);
    }

    /// Every run of steps keeps a table well formed and never lowers its
    /// counter.
    pub proof fn lemma_run(self, ops: Seq<Op<S>>)
        requires
            self.wf(),
        ensures
            self.run(ops).wf(),
            self.counter <= self.run(ops).counter,
        decreases ops.len(),
    {
        if ops.len() > 0 {
            self.lemma_run(ops.drop_last());
            let before = self.run(ops.drop_last());
            match ops.last() {
                Op::Register(slot, one_shot) => before.law_register(slot, one_shot),
                Op::Remove(handle) => before.law_remove(handle),
                Op::Fire(handle, called) => before.law_fired(handle, called),
            }
        }
    }

    /// Whatever was registered, removed and fired since the table was empty, the
    /// table is well formed: no handle is registered twice, and every handle
    /// registered was issued by the counter.
    pub proof fn law_reachable_tables_are_well_formed(ops: Seq<Op<S>>)
        ensures
            Self::empty().run(ops).wf(),
    {
        Self::empty().lemma_run(ops);
    }

    /// Over every sequence of registrations, removals and firings, each handle that a
    /// registration returns is greater than every handle issued before it:
    /// than the counter at the start, and than each handle returned earlier in
    /// the sequence. So no handle is ever returned twice, whether or not it
    /// was removed in between.
    pub proof fn law_handles_never_repeat(self, ops: Seq<Op<S>>)
        requires
            self.wf(),
        ensures
            forall|i: int|
                0 <= i < self.issued(ops).len() ==> self.counter < #[trigger] self.issued(ops)[i]
                    <= self.run(ops).counter,
            forall|i: int, j: int|
                0 <= i < j < self.issued(ops).len() ==> self.issued(ops)[i] < self.issued(ops)[j],
        decreases ops.len(),
    {
        if ops.len() > 0 {
            let front = ops.drop_last();
            self.law_handles_never_repeat(front);
            self.lemma_run(front);
            let before = self.run(front);
            let earlier = self.issued(front);
            match ops.last() {
                Op::Register(_, _) => {
                    assert(self.issued(ops) == earlier.push(before.next_handle()));
                },
                Op::Remove(handle) => {
                    before.law_remove(handle);
                },
                Op::Fire(handle, called) => {
                    before.law_fired(handle, called);
                },
            }
        }
    }

    /// Once a registered handle was removed, no registration returns it again,
    /// whatever steps follow: each handle issued afterwards is greater.
    pub proof fn law_removed_handle_is_not_issued_again(self, handle: nat, ops: Seq<Op<S>>)
        requires
            self.wf(),
            self.contains(handle),
        ensures
            forall|i: int|
                0 <= i < self.remove(handle).issued(ops).len() ==> handle < #[trigger] self.remove(
                    handle,
                ).issued(ops)[i],
    {
        self.lemma_contains(handle);
        self.law_remove(handle);
        self.remove(handle).law_handles_never_repeat(ops);
    }

    /// A handle that was issued and is no longer registered is never
    /// registered again, whatever steps follow.
    pub proof fn law_removed_stays_removed(self, handle: nat, ops: Seq<Op<S>>)
        requires
            self.wf(),
            handle <= self.counter,
            !self.contains(handle),
        ensures
            !self.run(ops).contains(handle),
            self.run(ops).lookup(handle) is None,
        decreases ops.len(),
    {
        if ops.len() > 0 {
            let front = ops.drop_last();
            self.law_removed_stays_removed(handle, front);
            self.lemma_run(front);
            let before = self.run(front);
            match ops.last() {
                Op::Register(slot, one_shot) => {
                    before.law_register(slot, one_shot);
                },
                Op::Remove(other) => {
                    before.law_remove(other);
                    before.law_remove_spares_others(other);
                },
                Op::Fire(other, called) => {
                    before.law_fired(other, called);
                },
            }
        }
    }
}

} // verus!

//! The registry: handles issued from a counter, each with the slot stored
//! under it.
//!
//! `CallbackManager` is the table itself, owned by whoever holds it; its
//! methods say exactly what they do to it. The functions at the end of the
//! file work on a table that is shared behind a lock: they take the lock for
//! one operation on the table and never hold it while a callback runs. What
//! another thread has left under the lock is not known to their caller, so
//! their own contracts say little: what each does to the table it finds is
//! said by the method it calls there.
//!
//! A registration is made for good or for one firing only. One made for good
//! stays until it is removed. One made for one firing only ends with the
//! firing that runs its callback: that is how a future's handle leaves the
//! table once the future is resolved.
use crate::handler::CallbackHandler;
use crate::registry::{Entry, Registry};
use crate::sync::{guarded, share};
use std::sync::Arc;
use vstd::prelude::*;

verus! {

/// What the host names a registration by.
pub type CallbackHandle = u32;

/// A slot as the registry holds it: shared with whoever looked it up, and
/// locked on its own.
pub type Slot<V> = Arc<spin::Mutex<CallbackHandler<V>>>;

/// How firing a handle ended.
#[must_use]
#[derive(Clone, Copy, Debug, PartialEq, Eq, Structural)]
pub enum Dispatch {
    /// The callback ran on the values given.
    Called,
    /// Nothing is registered under the handle, so nothing was done.
    UnknownHandle,
    /// The callback takes another number of values than were given, so it was
    /// not run.
    ArityMismatch,
}

/// One registration as the table holds it.
#[verifier::reject_recursive_types(V)]
struct Registration<V> {
    handle: CallbackHandle,
    slot: Slot<V>,
    one_shot: bool,
}

/// The table of registrations.
#[verifier::reject_recursive_types(V)]
pub struct CallbackManager<V> {
    cur_id: u32,
    entries: Vec<Registration<V>>,
}

impl<V> View for CallbackManager<V> {
    type V = Registry<Slot<V>>;

    closed spec fn view(&self) -> Registry<Slot<V>> {
        Registry {
            counter: self.cur_id as nat,
            entries: Seq::new(
                self.entries@.len(),
                |i: int|
                    Entry {
                        handle: self.entries@[i].handle as nat,
                        slot: self.entries@[i].slot,
                        one_shot: self.entries@[i].one_shot,
                    },
            ),
        }
    }
}

impl<V> CallbackManager<V> {
    /// A table without registrations, whose first handle will be 1.
    pub fn new() -> (cbs: Self)
        ensures
            cbs@ == Registry::<Slot<V>>::empty(),
            cbs@.wf(),
    {
        let cbs = CallbackManager { cur_id: 0, entries: Vec::new() };
        assert(cbs@.entries =~= Seq::empty());
        cbs
    }

    /// A table without registrations whose counter already stands at `last`,
    /// so that its first handle will be `last + 1`.
    pub fn starting_after(last: CallbackHandle) -> (cbs: Self)
        ensures
            cbs@ == (Registry::<Slot<V>> { counter: last as nat, entries: Seq::empty() }),
            cbs@.wf(),
    {
        let cbs = CallbackManager { cur_id: last, entries: Vec::new() };
        assert(cbs@.entries =~= Seq::empty());
        cbs
    }

    /// The handle issued last, 0 if none was.
    pub fn counter(&self) -> (c: CallbackHandle)
        ensures
            c == self@.counter,
    {
        self.cur_id
    }

    /// The number of live registrations.
    pub fn len(&self) -> (n: usize)
        ensures
            n == self@.entries.len(),
    {
        self.entries.len()
    }

    /// The handles of the live registrations, oldest first.
    pub fn keys(&self) -> (handles: Vec<CallbackHandle>)
        ensures
            handles@.len() == self@.handles().len(),
            forall|i: int| 0 <= i < handles@.len() ==> handles@[i] as nat == self@.handles()[i],
    {
        let mut handles: Vec<CallbackHandle> = Vec::new();
        let mut i: usize = 0;
        while i < self.entries.len()
            invariant
                i <= self.entries.len(),
                handles@.len() == i,
                forall|j: int| 0 <= j < i ==> handles@[j] == self.entries@[j].handle,
            decreases self.entries.len() - i,
        {
            handles.push(self.entries[i].handle);
            i += 1;
        }
        handles
    }

    /// The index of the oldest registration under `handle`.
    fn find(&self, handle: CallbackHandle) -> (found: Option<usize>)
        ensures
            match found {
                Some(i) => self@.is_first(handle as nat, i as int),
                None => !self@.contains(handle as nat),
            },
    {
        let mut i: usize = 0;
        while i < self.entries.len()
            invariant
                i <= self.entries.len(),
                forall|j: int| 0 <= j < i ==> self.entries@[j].handle != handle,
            decreases self.entries.len() - i,
        {
            if self.entries[i].handle == handle {
                return Some(i);
            }
            i += 1;
        }
        None
    }

    /// What is registered under `handle`: the slot, shared with the table, or
    /// `None` where nothing is registered under it; and whether the
    /// registration is for one firing only. The table is not changed.
    pub fn registration(&self, handle: CallbackHandle) -> (found: (Option<Slot<V>>, bool))
        ensures
            found.0 == self@.lookup(handle as nat),
            found.1 == self@.one_shot(handle as nat),
    {
        match self.find(handle) {
            Some(i) => {
                proof {
                    self@.lemma_position(handle as nat, i as int);
                }
                (Some(share(&self.entries[i].slot)), self.entries[i].one_shot)
            },
            None => (None, false),
        }
    }

    /// The slot registered under `handle`, shared with the table; `None`
    /// where nothing is registered under it. The table is not changed.
    pub fn lookup(&self, handle: CallbackHandle) -> (slot: Option<Slot<V>>)
        ensures
            slot == self@.lookup(handle as nat),
    {
        self.registration(handle).0
    }

    /// Stores `slot` under the next handle, for one firing only or for good,
    /// and returns that handle. In a well formed table the handle was not
    /// registered before and now leads to `slot`.
    pub fn insert(&mut self, slot: Slot<V>, one_shot: bool) -> (handle: CallbackHandle)
        requires
            old(self)@.counter < u32::MAX,
        ensures
            handle == old(self)@.next_handle(),
            final(self)@ == old(self)@.register(slot, one_shot),
            old(self)@.wf() ==> {
                &&& final(self)@.wf()
                &&& !old(self)@.contains(handle as nat)
                &&& final(self)@.lookup(handle as nat) == Some(slot)
                &&& final(self)@.one_shot(handle as nat) == one_shot
                &&& forall|other: nat|
                    other != handle ==> {
                        &&& final(self)@.lookup(other) == old(self)@.lookup(other)
                        &&& final(self)@.one_shot(other) == old(self)@.one_shot(other)
                    }
            },
    {
        self.cur_id = self.cur_id + 1;
        let handle = self.cur_id;
        self.entries.push(Registration { handle, slot, one_shot });
        proof {
            assert(self@.entries =~= old(self)@.register(slot, one_shot).entries);
            if old(self)@.wf() {
                old(self)@.law_register(slot, one_shot);
            }
        }
        handle
    }

    /// Puts `cb` into a slot of its own, stores the slot for good under the
    /// next handle and returns that handle. The slot is the last entry of the
    /// table afterwards.
    pub fn register(&mut self, cb: CallbackHandler<V>) -> (handle: CallbackHandle)
        requires
            old(self)@.counter < u32::MAX,
        ensures
            handle == old(self)@.next_handle(),
            final(self)@ == old(self)@.register(final(self)@.entries.last().slot, false),
            old(self)@.wf() ==> {
                &&& final(self)@.wf()
                &&& !old(self)@.contains(handle as nat)
                &&& final(self)@.lookup(handle as nat) is Some
                &&& !final(self)@.one_shot(handle as nat)
                &&& forall|other: nat|
                    other != handle ==> {
                        &&& final(self)@.lookup(other) == old(self)@.lookup(other)
                        &&& final(self)@.one_shot(other) == old(self)@.one_shot(other)
                    }
            },
    {
        self.insert(Arc::new(spin::Mutex::new(cb)), false)
    }

    /// Puts `cb` into a slot of its own and stores the slot under the next
    /// handle, for one firing only or for good. On a table whose counter is
    /// spent it returns `None` and leaves the table as it is.
    fn try_store(&mut self, cb: CallbackHandler<V>, one_shot: bool) -> (handle: Option<
        CallbackHandle,
    >)
        ensures
            match handle {
                Some(h) => {
                    &&& old(self)@.counter < u32::MAX
                    &&& h == old(self)@.next_handle()
                    &&& final(self)@ == old(self)@.register(
                        final(self)@.entries.last().slot,
                        one_shot,
                    )
                },
                None => old(self)@.counter == u32::MAX && final(self)@ == old(self)@,
            },
            old(self)@.wf() ==> final(self)@.wf(),
            old(self)@.wf() ==> (handle matches Some(h) ==> {
                &&& !old(self)@.contains(h as nat)
                &&& final(self)@.lookup(h as nat) is Some
                &&& final(self)@.one_shot(h as nat) == one_shot
                &&& forall|other: nat|
                    other != h ==> {
                        &&& final(self)@.lookup(other) == old(self)@.lookup(other)
                        &&& final(self)@.one_shot(other) == old(self)@.one_shot(other)
                    }
            }),
    {
        if self.cur_id < u32::MAX {
            Some(self.insert(Arc::new(spin::Mutex::new(cb)), one_shot))
        } else {
            None
        }
    }

    /// As `register`, but on a table whose counter is spent it returns `None`
    /// and leaves the table as it is.
    pub fn try_register(&mut self, cb: CallbackHandler<V>) -> (handle: Option<CallbackHandle>)
        ensures
            match handle {
                Some(h) => {
                    &&& old(self)@.counter < u32::MAX
                    &&& h == old(self)@.next_handle()
                    &&& final(self)@ == old(self)@.register(
                        final(self)@.entries.last().slot,
                        false,
                    )
                },
                None => old(self)@.counter == u32::MAX && final(self)@ == old(self)@,
            },
            old(self)@.wf() ==> final(self)@.wf(),
            old(self)@.wf() ==> (handle matches Some(h) ==> {
                &&& !old(self)@.contains(h as nat)
                &&& final(self)@.lookup(h as nat) is Some
                &&& final(self)@.one_shot(h as nat) == false
                &&& forall|other: nat|
                    other != h ==> {
                        &&& final(self)@.lookup(other) == old(self)@.lookup(other)
                        &&& final(self)@.one_shot(other) == old(self)@.one_shot(other)
                    }
            }),
    {
        self.try_store(cb, false)
    }

    /// As `try_register`, but the registration is for one firing only: it
    /// ends with the firing that runs `cb`.
    pub fn try_register_once(&mut self, cb: CallbackHandler<V>) -> (handle: Option<
        CallbackHandle,
    >)
        ensures
            match handle {
                Some(h) => {
                    &&& old(self)@.counter < u32::MAX
                    &&& h == old(self)@.next_handle()
                    &&& final(self)@ == old(self)@.register(
                        final(self)@.entries.last().slot,
                        true,
                    )
                },
                None => old(self)@.counter == u32::MAX && final(self)@ == old(self)@,
            },
            old(self)@.wf() ==> final(self)@.wf(),
            old(self)@.wf() ==> (handle matches Some(h) ==> {
                &&& !old(self)@.contains(h as nat)
                &&& final(self)@.lookup(h as nat) is Some
                &&& final(self)@.one_shot(h as nat) == true
                &&& forall|other: nat|
                    other != h ==> {
                        &&& final(self)@.lookup(other) == old(self)@.lookup(other)
                        &&& final(self)@.one_shot(other) == old(self)@.one_shot(other)
                    }
            }),
    {
        self.try_store(cb, true)
    }

    /// Drops the registration under `handle`. Where there is none, the table
    /// stays as it is.
    pub fn remove(&mut self, handle: CallbackHandle)
        ensures
            final(self)@ == old(self)@.remove(handle as nat),
            old(self)@.contains(handle as nat) ==> final(self)@.entries.len() + 1 == old(
                self,
            )@.entries.len(),
            forall|other: nat|
                other != handle ==> {
                    &&& final(self)@.lookup(other) == old(self)@.lookup(other)
                    &&& final(self)@.one_shot(other) == old(self)@.one_shot(other)
                },
            old(self)@.wf() ==> final(self)@.wf() && final(self)@.lookup(handle as nat) is None,
    {
        match self.find(handle) {
            Some(i) => {
                proof {
                    self@.lemma_position(handle as nat, i as int);
                }
                self.entries.remove(i);
                assert(self@.entries =~= old(self)@.entries.remove(i as int));
            },
            None => {},
        }
        proof {
            old(self)@.law_remove_spares_others(handle as nat);
            if old(self)@.wf() {
                old(self)@.law_remove(handle as nat);
            }
        }
    }

    /// Does to the table what a firing of `handle` that ended as `outcome`
    /// asks for: a registration for one firing only is dropped once its
    /// callback ran. After any other firing, and where `handle` is registered
    /// for good or not at all, the table stays as it is.
    pub fn retire(&mut self, handle: CallbackHandle, outcome: Dispatch)
        ensures
            final(self)@ == old(self)@.fired(handle as nat, outcome is Called),
            forall|other: nat|
                other != handle ==> {
                    &&& final(self)@.lookup(other) == old(self)@.lookup(other)
                    &&& final(self)@.one_shot(other) == old(self)@.one_shot(other)
                },
            old(self)@.wf() ==> final(self)@.wf(),
            old(self)@.wf() && outcome is Called && old(self)@.one_shot(handle as nat)
                ==> final(self)@.lookup(handle as nat) is None,
    {
        if outcome == Dispatch::Called && self.registration(handle).1 {
            self.remove(handle);
        }
    }

    /// Fires `handle` with `args`: looks the slot up and, where there is one,
    /// runs its callback under the slot's own lock. Where nothing is
    /// registered under `handle` nothing is done, and no callback is ever run
    /// on more than ten values. A registration for one firing only is dropped
    /// once its callback ran; otherwise the table stays as it is.
    pub fn invoke(&mut self, handle: CallbackHandle, args: &[V]) -> (outcome: Dispatch) where
        V: Copy,

        ensures
            outcome is UnknownHandle <==> old(self)@.lookup(handle as nat) is None,
            outcome is Called ==> args@.len() <= 10,
            final(self)@ == old(self)@.fired(handle as nat, outcome is Called),
            forall|other: nat|
                other != handle ==> {
                    &&& final(self)@.lookup(other) == old(self)@.lookup(other)
                    &&& final(self)@.one_shot(other) == old(self)@.one_shot(other)
                },
            old(self)@.wf() ==> final(self)@.wf(),
            old(self)@.wf() && outcome is Called && old(self)@.one_shot(handle as nat)
                ==> final(self)@.lookup(handle as nat) is None,
    {
        let (found, one_shot) = self.registration(handle);
        let outcome = fire_found(found, args);
        if one_shot {
            self.retire(handle, outcome);
        }
        outcome
    }
}

/// Runs the callback in `slot` on `args`, holding the slot's lock for the
/// length of the run and no other. The answer is the one that
/// `CallbackHandler::dispatch` gives for the handler found under the lock. A
/// callback that fires its own slot waits for a lock that it holds itself,
/// and so never returns.
pub fn fire<V: Copy>(slot: &spin::Mutex<CallbackHandler<V>>, args: &[V]) -> (outcome: Dispatch)
    ensures
        outcome is Called || outcome is ArityMismatch,
        args@.len() > 10 ==> outcome is ArityMismatch,
{
    // Which handler the lock guards is not known before it is taken, so the
    // contract says what holds of every handler: a slot is there, so the
    // handle is not unknown, and no callback takes more than ten values.
    // `dispatch` says the rest, for the handler found.
    let mut guard = slot.lock();
    guarded(&mut guard).dispatch(args)
}

/// Registers `cb` for good in the table behind `cbs` and returns its handle;
/// `None` where the table's counter is spent, and then nothing was
/// registered. The lock is held for the registration only.
pub fn create_callback<V>(cbs: &spin::Mutex<CallbackManager<V>>, cb: CallbackHandler<V>) -> (handle:
    Option<CallbackHandle>)
    ensures
        handle matches Some(h) ==> h >= 1,
{
    let mut guard = cbs.lock();
    guarded(&mut guard).try_register(cb)
}

/// As `create_callback`, but the registration is for one firing only: `invoke`
/// drops it once it has run `cb`.
pub fn create_callback_once<V>(
    cbs: &spin::Mutex<CallbackManager<V>>,
    cb: CallbackHandler<V>,
) -> (handle: Option<CallbackHandle>)
    ensures
        handle matches Some(h) ==> h >= 1,
{
    let mut guard = cbs.lock();
    guarded(&mut guard).try_register_once(cb)
}

/// The slot registered under `id` in the table behind `cbs`, if any. The lock
/// is released before the slot is handed out, so the slot can be fired while
/// others register and remove.
pub fn get_callback<V>(cbs: &spin::Mutex<CallbackManager<V>>, id: CallbackHandle) -> (slot: Option<
    Slot<V>,
>) {
    let mut guard = cbs.lock();
    guarded(&mut guard).lookup(id)
}

/// What is registered under `id` in the table behind `cbs`, as
/// `CallbackManager::registration` finds it there, with the lock released
/// again.
fn find_callback<V>(cbs: &spin::Mutex<CallbackManager<V>>, id: CallbackHandle) -> (found: (
    Option<Slot<V>>,
    bool,
)) {
    let mut guard = cbs.lock();
    guarded(&mut guard).registration(id)
}

/// Drops the registration under `id` from the table behind `cbs`; does
/// nothing where there is none. A run of the callback that is under way
/// elsewhere goes on undisturbed: it holds the slot, not the table.
pub fn remove_callback<V>(cbs: &spin::Mutex<CallbackManager<V>>, id: CallbackHandle) {
    let mut guard = cbs.lock();
    guarded(&mut guard).remove(id)
}

/// Does to the table behind `cbs` what a firing of `id` that ended as
/// `outcome` asks for, as `CallbackManager::retire` says: a registration for
/// one firing only is dropped once its callback ran.
pub fn retire_callback<V>(
    cbs: &spin::Mutex<CallbackManager<V>>,
    id: CallbackHandle,
    outcome: Dispatch,
) {
    let mut guard = cbs.lock();
    guarded(&mut guard).retire(id, outcome)
}

/// Fires `id` with `args` in the table behind `cbs`. The table's lock is held
/// for the lookup only; the callback runs under the lock of its own slot, so
/// it may itself register, remove and fire other handles. Where the
/// registration is for one firing only, the table's lock is taken once more
/// afterwards, to drop it if the callback ran.
pub fn invoke<V: Copy>(
    cbs: &spin::Mutex<CallbackManager<V>>,
    id: CallbackHandle,
    args: &[V],
) -> (outcome: Dispatch)
    ensures
        outcome is Called ==> args@.len() <= 10,
{
    // What is registered under `id` is known only once the table's lock was
    // taken. `CallbackManager::registration` says what is found in each
    // table, `fire_found` what is answered for each thing found, and
    // `CallbackManager::retire` what becomes of each table afterwards.
    let (found, one_shot) = find_callback(cbs, id);
    let outcome = fire_found(found, args);
    if one_shot {
        retire_callback(cbs, id, outcome);
    }
    outcome
}

/// Fires what a lookup has found: the slot, if it found one, and nothing if it
/// found none, which is what an unknown handle comes to.
pub fn fire_found<V: Copy>(found: Option<Slot<V>>, args: &[V]) -> (outcome: Dispatch)
    ensures
        outcome is UnknownHandle <==> found is None,
        outcome is Called ==> args@.len() <= 10,
{
    match found {
        Some(slot) => fire(&slot, args),
        None => Dispatch::UnknownHandle,
    }
}

} // verus!

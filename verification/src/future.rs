//! A future that becomes ready when the host fires its handle.
//!
//! `CallbackFuture` and `Resolver` are the two ends of one `SharedState`: the
//! future polls it, the callback completes it, each with the state's lock
//! held for that one step.
use crate::closure::Callback;
use crate::handler::CallbackHandler;
use crate::manager::{create_callback_once, CallbackHandle, CallbackManager};
use crate::state::SharedState;
use crate::sync::{guarded, share, wake};
use core::task::Waker;
use std::sync::Arc;
use vstd::prelude::*;

verus! {

/// The callback that a future registers for itself: the first firing of it
/// resolves the future, and every later one is ignored.
#[verifier::reject_recursive_types(V)]
struct Resolver<V> {
    shared_state: Arc<spin::Mutex<SharedState<V>>>,
}

/// Takes the lock of `shared`, does `SharedState::complete` with `value` on
/// what it finds and returns the waker handed out, with the lock released.
fn settle<V: Copy>(shared: &spin::Mutex<SharedState<V>>, value: V) -> (parked: Option<Waker>) {
    let mut guard = shared.lock();
    guarded(&mut guard).complete(value)
}

impl<V: Copy + Send> Callback<(V,)> for Resolver<V> {
    open spec fn runs(&self, args: (V,)) -> bool {
        true
    }

    /// Stores the value under the state's lock, unless one is stored there
    /// already, then wakes the waiting task, if there is one, with the lock
    /// released.
    fn call(&mut self, args: (V,)) {
        match settle(&self.shared_state, args.0) {
            Some(waker) => wake(waker),
            None => {},
        }
    }
}

/// A future that is resolved through the registry: it becomes ready when the
/// handle made with it is fired, with the value it was fired with.
#[verifier::reject_recursive_types(V)]
pub struct CallbackFuture<V> {
    shared_state: Arc<spin::Mutex<SharedState<V>>>,
}

impl<V: Copy + Send + 'static> CallbackFuture<V> {
    /// The callback that resolves this future: a callback of one value that
    /// works on the very state that the future polls, behind the same lock.
    pub closed spec fn resolver(self) -> CallbackHandler<V> {
        CallbackHandler::Callback1(Box::new(Resolver { shared_state: self.shared_state }))
    }

    /// A future and the callback that resolves it, not yet registered
    /// anywhere. The callback takes one value, the one the future will be
    /// ready with, and shares its state with this future and with no other.
    /// It is meant to be registered for one firing only, with
    /// `CallbackManager::try_register_once` or `create_callback_once`.
    pub fn detached() -> (made: (Self, CallbackHandler<V>))
        ensures
            made.1 == made.0.resolver(),
            made.1 is Callback1,
            made.1.arity() == 1,
    {
        let shared_state = Arc::new(spin::Mutex::new(SharedState::new()));
        let resolver = Resolver { shared_state: share(&shared_state) };
        (CallbackFuture { shared_state }, CallbackHandler::Callback1(Box::new(resolver)))
    }

    /// Makes a future and registers the callback that resolves it in the
    /// table behind `cbs`, for one firing only. Returns the future and the
    /// handle to fire, or `None` where the table's counter is spent. The
    /// firing that resolves the future ends the registration, so a firing
    /// after it finds nothing under the handle.
    pub fn new(cbs: &spin::Mutex<CallbackManager<V>>) -> (made: Option<(Self, CallbackHandle)>)
        ensures
            made matches Some(pair) ==> pair.1 >= 1,
    {
        let (future, resolver) = Self::detached();
        match create_callback_once(cbs, resolver) {
            Some(handle) => Some((future, handle)),
            None => None,
        }
    }

    /// One poll on behalf of the task that `waker` resumes: takes the state's
    /// lock and does `SharedState::poll` on what it finds. The answer is the
    /// value of the first firing once the handle was fired, and the same value
    /// at every poll after that; before, it is `None`, and the firing will
    /// wake the task that polled last.
    pub fn poll(&self, waker: &Waker) -> (answer: Option<V>) {
        let mut guard = self.shared_state.lock();
        guarded(&mut guard).poll(waker)
    }
}

} // verus!

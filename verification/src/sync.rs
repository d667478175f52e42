//! The lock and the shared pointer that every slot and every future's state
//! sits behind, and the waker of a waiting task.
//!
//! Nothing here is proved. The lock is `spin::Mutex`; Verus sees neither its
//! fields nor what it guards, so a value read under the lock is, to every
//! proof in this crate, an arbitrary value of its type.
use core::task::Waker;
use std::sync::Arc;
use vstd::prelude::*;

verus! {

/// `spin::Mutex<T>`, a spin lock around one value of `T`. Opaque: what it
/// guards can change between any two acquisitions.
#[verifier::external_type_specification]
#[verifier::external_body]
#[verifier::reject_recursive_types(T)]
pub struct ExMutex<T: ?Sized>(spin::Mutex<T>);

/// `spin::MutexGuard<'a, T>`, the proof that the lock is held. Dropping it
/// releases the lock.
#[verifier::external_type_specification]
#[verifier::external_body]
#[verifier::reject_recursive_types(T)]
pub struct ExMutexGuard<'a, T: ?Sized + 'a>(spin::MutexGuard<'a, T>);

/// `spin::Mutex::new` builds an unlocked mutex around `user_data`. Nothing is
/// claimed of the result.
pub assume_specification<T>[ spin::Mutex::<T>::new ](user_data: T) -> (m: spin::Mutex<T>)
;

/// `spin::Mutex::lock` spins until the lock is free, takes it and returns the
/// guard. Nothing is claimed of the guarded value. It does not return while
/// the calling thread itself still holds a guard of the same mutex.
pub assume_specification<T: ?Sized>[ spin::Mutex::<T>::lock ](m: &spin::Mutex<T>) -> (g:
    spin::MutexGuard<'_, T>)
;

/// `DerefMut::deref_mut` of `spin::MutexGuard`: exclusive access to the guarded
/// value for as long as the guard is borrowed. Nothing is claimed of the value
/// found there.
#[verifier::external_body]
pub(crate) fn guarded<'a, 'b, T>(guard: &'a mut spin::MutexGuard<'b, T>) -> (value: &'a mut T) {
    &mut **guard
}

/// `Arc::clone`: a second pointer to the same allocation, hence equal to the
/// first.
#[verifier::external_body]
pub(crate) fn share<T>(pointer: &Arc<T>) -> (copy: Arc<T>)
    ensures
        copy == *pointer,
{
    pointer.clone()
}

/// `core::task::Waker`, the handle by which a suspended task is resumed.
/// Opaque.
#[verifier::external_type_specification]
#[verifier::external_body]
pub struct ExWaker(Waker);

/// `Waker::clone`: another waker for the task of `waker`. What comes back is
/// what `clone` gave for `waker`, and no more is claimed of it.
#[verifier::external_body]
pub(crate) fn clone_waker(waker: &Waker) -> (copy: Waker)
    ensures
        cloned::<Waker>(*waker, copy),
{
    waker.clone()
}

/// `Waker::wake`: resumes the task that the waker stands for, and uses the
/// waker up.
#[verifier::external_body]
pub(crate) fn wake(waker: Waker) {
    waker.wake()
}

} // verus!

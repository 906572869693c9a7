//! What the crate takes on trust from `std`: the lock around the shared cell,
//! and the calls by which a future is pinned, polled and woken.
//!
//! Verus reads none of the bodies here and believes each contract as written.
//! No contract says what a lock guards or what a poll returns: both depend on
//! what the computation has done so far, so the verified callers are proved
//! for every value that may come back.

use crate::emit::YieldFuture;
use crate::handoff::Handoff;
use crate::wake::NoopWake;
use std::pin::Pin;
use std::sync::{Arc, Mutex, MutexGuard, PoisonError};
use std::task::{Context, Poll, Waker};
use vstd::prelude::*;

verus! {

/// `std::sync::Mutex`, opaque.
#[verifier::external_type_specification]
#[verifier::external_body]
#[verifier::reject_recursive_types(T)]
pub struct ExMutex<T: ?Sized>(Mutex<T>);

/// `std::sync::MutexGuard`, opaque.
#[verifier::external_type_specification]
#[verifier::external_body]
#[verifier::reject_recursive_types(T)]
pub struct ExMutexGuard<'a, T: ?Sized + 'a>(MutexGuard<'a, T>);

/// `std::pin::Pin`, opaque.
#[verifier::external_type_specification]
#[verifier::external_body]
#[verifier::reject_recursive_types(Ptr)]
pub struct ExPin<Ptr>(Pin<Ptr>);

/// `std::task::Poll`, with its two variants `Ready` and `Pending`.
#[verifier::external_type_specification]
#[verifier::reject_recursive_types(T)]
pub struct ExPoll<T>(Poll<T>);

/// `std::task::Context`, opaque.
#[verifier::external_type_specification]
#[verifier::external_body]
pub struct ExContext<'a>(Context<'a>);

/// `std::task::Waker`, opaque.
#[verifier::external_type_specification]
#[verifier::external_body]
pub struct ExWaker(Waker);

/// `Mutex::new`: a mutex around `t`.
pub assume_specification<T>[ Mutex::<T>::new ](t: T) -> (mutex: Mutex<T>)
;

/// `Arc::clone`: a second pointer to the same allocation, hence to the same
/// mutex.
#[verifier::external_body]
pub(crate) fn share<Item>(cell: &Arc<Mutex<Handoff<Item>>>) -> (other: Arc<Mutex<Handoff<Item>>>)
    ensures
        other == *cell,
{
    Arc::clone(cell)
}

/// `Box::pin`: `x` moved to the heap and pinned there.
pub assume_specification<T>[ Box::<T>::pin ](x: T) -> (pinned: Pin<Box<T>>)
;

/// `Context::from_waker`: a task context that wakes through `waker`.
pub assume_specification<'a>[ Context::<'a>::from_waker ](waker: &'a Waker) -> (cx: Context<'a>)
;

/// `Mutex::lock`, taking the guard out of a poisoned lock too
/// (`PoisonError::into_inner`): the call returns once the lock is held and
/// does not panic.
#[verifier::external_body]
pub(crate) fn lock<'a, Item>(cell: &'a Mutex<Handoff<Item>>) -> (guard: MutexGuard<
    'a,
    Handoff<Item>,
>) {
    cell.lock().unwrap_or_else(PoisonError::into_inner)
}

/// `DerefMut::deref_mut` of a `MutexGuard`: the guarded cell, for as long as
/// the guard is borrowed.
#[verifier::external_body]
pub(crate) fn guarded<'g, 'a, Item>(guard: &'g mut MutexGuard<'a, Handoff<Item>>) -> (cell: &'g mut Handoff<Item>) {
    &mut **guard
}

/// `Pin::get_mut`: the emit behind a pinned reference, which `Unpin` lets
/// out.
#[verifier::external_body]
pub(crate) fn unpinned<'p, 'a, Item>(pinned: Pin<&'p mut YieldFuture<'a, Item>>) -> (emit: &'p mut YieldFuture<'a, Item>) {
    pinned.get_mut()
}

/// `Waker::from` on an `Arc` of this crate's [`NoopWake`]: a waker whose
/// `wake` runs `NoopWake::wake`.
#[verifier::external_body]
pub(crate) fn waker_of(wake: Arc<NoopWake>) -> (waker: Waker) {
    Waker::from(wake)
}

} // verus!

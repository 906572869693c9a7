//! The emitting side: the handle a computation holds and the suspension point
//! it awaits to hand one item over.

use crate::handoff::Handoff;
use crate::trusted::{guarded, lock, unpinned};
use std::future::Future;
use std::pin::Pin;
use std::sync::{Arc, Mutex};
use std::task::{Context, Poll};
use vstd::prelude::*;

verus! {

/// An emit was resumed while the cell still held an item: something other
/// than the generator is driving the computation.
///
/// The emit that meets it marks the cell and stays suspended. The generator
/// finds the mark when the computation next returns to it, ends the sequence
/// and reports the violation through
/// [`Generator::violation`](crate::Generator::violation).
#[derive(Debug, PartialEq, Eq)]
pub struct ProtocolViolation;

/// What a resumption reports: `Pending` for "suspended", `Ready(())` for
/// "complete".
pub type Progress = Poll<()>;

/// What one resumption of an emit reports, by the item it has yet to place
/// and the content of the cell.
///
/// An occupied cell is a violation whatever the emit holds. With the cell
/// empty, an emit that places its item suspends, and one that placed it
/// earlier finds it consumed and completes.
pub open spec fn emit_outcome<Item>(pending: Option<Item>, cell: Option<Item>) -> Result<
    Progress,
    ProtocolViolation,
> {
    if cell is Some {
        Err(ProtocolViolation)
    } else if pending is Some {
        Ok(Poll::Pending)
    } else {
        Ok(Poll::Ready(()))
    }
}

/// The content of the cell after one resumption of an emit: an empty cell
/// receives the item that was to be placed, an occupied one keeps its own.
pub open spec fn emit_cell<Item>(pending: Option<Item>, cell: Option<Item>) -> Option<Item> {
    if cell is Some {
        cell
    } else {
        pending
    }
}

/// What an emit reports to the computation that awaits it. After a violation
/// the emit stays suspended, so that the computation goes no further; the
/// violation travels to the driver as a mark on the cell.
pub open spec fn emit_report(outcome: Result<Progress, ProtocolViolation>) -> Progress {
    match outcome {
        Ok(progress) => progress,
        Err(_) => Poll::Pending,
    }
}

/// Resumes an emit once: `pending` is the item it has yet to place, `cell`
/// the cell under the lock.
///
/// On the first resumption the item goes into the cell and the emit suspends.
/// On a later one the emit completes if the cell is empty again. Either way an
/// occupied cell is a [`ProtocolViolation`]: the cell keeps its content and is
/// marked as violated, and an item that could not be placed is dropped.
pub fn resume_emit<Item>(pending: &mut Option<Item>, cell: &mut Handoff<Item>) -> (outcome: Result<
    Progress,
    ProtocolViolation,
>)
    ensures
        outcome == emit_outcome(*old(pending), old(cell)@),
        final(cell)@ == emit_cell(*old(pending), old(cell)@),
        final(cell).violated() == (old(cell).violated() || outcome is Err),
        *final(pending) is None,
{
    let placed = match pending.take() {
        Some(item) => match cell.put(item) {
            Ok(()) => Some(Poll::Pending),
            Err(_) => None,
        },
        None => if cell.is_occupied() {
            None
        } else {
            Some(Poll::Ready(()))
        },
    };
    match placed {
        Some(progress) => Ok(progress),
        None => {
            cell.mark_violated();
            Err(ProtocolViolation)
        },
    }
}

/// The handle through which a computation emits items.
///
/// [`generate`](crate::generate) hands one to the closure it is given. It
/// refers to the generator's cell and carries nothing else.
#[verifier::reject_recursive_types(Item)]
pub struct Communication<Item>(Arc<Mutex<Handoff<Item>>>);

impl<Item> Communication<Item> {
    /// The shared cell that this handle writes to.
    pub closed spec fn cell(&self) -> Mutex<Handoff<Item>> {
        *self.0
    }

    /// A handle that writes to `shared`.
    pub(crate) fn new(shared: Arc<Mutex<Handoff<Item>>>) -> (co: Self)
        ensures
            co.cell() == *shared,
    {
        Communication(shared)
    }

    /// Emits `item`: the future returned places it in the cell when first
    /// polled and completes once the generator has taken it out.
    pub fn yield_(&self, item: Item) -> (emit: YieldFuture<'_, Item>)
        ensures
            emit.pending() == Some(item),
            emit.cell() == self.cell(),
    {
        YieldFuture { shared: &self.0, value: Some(item) }
    }
}

/// Future returned by [`Communication::yield_`].
#[verifier::reject_recursive_types(Item)]
pub struct YieldFuture<'a, Item> {
    shared: &'a Mutex<Handoff<Item>>,
    value: Option<Item>,
}

impl<'a, Item> YieldFuture<'a, Item> {
    /// The item that this emit has yet to place in the cell.
    pub closed spec fn pending(&self) -> Option<Item> {
        self.value
    }

    /// The shared cell that this emit writes to.
    pub closed spec fn cell(&self) -> Mutex<Handoff<Item>> {
        *self.shared
    }

    /// Resumes the emit once under the lock of its cell, and releases the
    /// lock again.
    ///
    /// The report is that of [`resume_emit`] on the item this emit has yet
    /// to place and on whatever the cell held when the lock was taken: with
    /// an item to place the emit suspends, without one it completes or, on a
    /// violation, stays suspended. Afterwards it has nothing left to place,
    /// and it still writes to the same cell.
    fn advance(&mut self) -> (report: Progress)
        ensures
            exists|held: Option<Item>|
                report == emit_report(#[trigger] emit_outcome(old(self).pending(), held)),
            old(self).pending() is Some ==> report is Pending,
            final(self).pending() is None,
            final(self).cell() == old(self).cell(),
    {
        let ghost before = self.value;
        let mut guard = lock(self.shared);
        let cell = guarded(&mut guard);
        let ghost held = cell@;
        let outcome = resume_emit(&mut self.value, cell);
        assert(outcome == emit_outcome(before, held));
        match outcome {
            Ok(progress) => progress,
            Err(_) => Poll::Pending,
        }
    }
}

impl<'a, Item> Unpin for YieldFuture<'a, Item> {

}

impl<'a, Item> Future for YieldFuture<'a, Item> {
    type Output = ();

    /// One resumption of the emit, under the lock of the shared cell; see
    /// [`resume_emit`]. A [`ProtocolViolation`] is left as a mark on the cell
    /// for the generator to report, and the emit stays suspended.
    fn poll(self: Pin<&mut Self>, _cx: &mut Context<'_>) -> Progress {
        unpinned(self).advance()
    }
}

} // verus!

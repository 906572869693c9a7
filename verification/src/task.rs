//! The suspended computation, and the one way to resume it.
//!
//! A future must not be polled again once it has reported completion. The
//! type here keeps the pinned future together with a record of what its
//! polls have reported so far, so that every resumption has to show that
//! the computation is still unfinished.

use crate::emit::Progress;
use std::future::Future;
use std::pin::Pin;
use std::task::Context;
use vstd::prelude::*;

verus! {

/// A computation on the heap, pinned, with the record of its resumptions.
#[verifier::reject_recursive_types(Fut)]
pub(crate) struct Task<Fut: Future<Output = ()>> {
    future: Pin<Box<Fut>>,
    origin: Ghost<Fut>,
    finished: Ghost<bool>,
    resumptions: Ghost<nat>,
}

impl<Fut: Future<Output = ()>> Task<Fut> {
    /// The computation as it was handed over, before any resumption.
    pub closed spec fn origin(&self) -> Fut {
        self.origin@
    }

    /// Whether a resumption has reported completion.
    pub closed spec fn finished(&self) -> bool {
        self.finished@
    }

    /// How many times the computation has been resumed.
    pub closed spec fn resumptions(&self) -> nat {
        self.resumptions@
    }

    /// Pins `computation` on the heap. Nothing of it runs yet.
    pub(crate) fn new(computation: Fut) -> (task: Self)
        ensures
            task.origin() == computation,
            !task.finished(),
            task.resumptions() == 0,
    {
        Task {
            origin: Ghost(computation),
            future: Box::pin(computation),
            finished: Ghost(false),
            resumptions: Ghost(0),
        }
    }

    /// `Future::poll` on the pinned computation (through `Pin::as_mut`): runs
    /// the computation until it next suspends or completes, and says which.
    ///
    /// std lets a future panic or block when it is polled after it has
    /// reported `Ready`, so the computation has to be unfinished. The record
    /// takes the call down: one resumption more, finished exactly if the
    /// report is `Ready`. A panic of the computation passes through this
    /// call.
    #[verifier::external_body]
    pub(crate) fn resume(&mut self, cx: &mut Context<'_>) -> (report: Progress)
        requires
            !old(self).finished(),
        ensures
            final(self).finished() == (report is Ready),
            final(self).resumptions() == old(self).resumptions() + 1,
            final(self).origin() == old(self).origin(),
    {
        self.future.as_mut().poll(cx)
    }
}

} // verus!

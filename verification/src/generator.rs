//! The driving side: the generator that resumes a computation and hands out
//! the items it emits.

use crate::emit::{Communication, Progress, ProtocolViolation};
use crate::handoff::Handoff;
use crate::task::Task;
use crate::trusted::{guarded, lock, share, waker_of};
use crate::wake::NoopWake;
use std::future::Future;
use std::sync::{Arc, Mutex};
use std::task::{Context, Poll};
use vstd::prelude::*;

verus! {

/// Most resumptions in a row that a computation may spend without an item
/// before [`Generator::next`] takes it to have stalled.
pub const STALL_LIMIT: u64 = 0xffff_ffff_ffff_ffff;

/// What the driver does after one resumption of the computation.
#[derive(Debug, PartialEq, Eq)]
pub enum Verdict<Item> {
    /// The computation emitted this item: hand it to the consumer.
    Produce(Item),
    /// The computation suspended without an item: resume it again.
    Resume,
    /// The computation completed: the sequence has ended.
    Finish,
    /// An emit met a protocol violation: the sequence has ended, and the
    /// violation is to be reported.
    Violation,
}

/// The driver's verdict on one resumption, by what the computation reported
/// and what the cell held, and whether it was marked, when it returned.
///
/// A marked cell is a violation whatever else holds. Otherwise a suspension
/// counts as an item only if the cell is occupied, and completion ends the
/// sequence whatever the cell holds.
pub open spec fn verdict_of<Item>(report: Progress, cell: Option<Item>, violated: bool) -> Verdict<
    Item,
> {
    if violated {
        Verdict::Violation
    } else {
        match report {
            Poll::Ready(_) => Verdict::Finish,
            Poll::Pending => match cell {
                Some(item) => Verdict::Produce(item),
                None => Verdict::Resume,
            },
        }
    }
}

/// The content of the cell once the driver has looked at it: drained after a
/// suspension, untouched after completion and after a violation.
pub open spec fn drained<Item>(report: Progress, cell: Option<Item>, violated: bool) -> Option<
    Item,
> {
    if violated {
        cell
    } else {
        match report {
            Poll::Ready(_) => cell,
            Poll::Pending => None,
        }
    }
}

/// Judges one resumption of the computation: `report` is what the
/// computation reported, `cell` the cell under the lock. The mark on the
/// cell stays as it is.
pub fn judge<Item>(report: Progress, cell: &mut Handoff<Item>) -> (verdict: Verdict<Item>)
    ensures
        verdict == verdict_of(report, old(cell)@, old(cell).violated()),
        final(cell)@ == drained(report, old(cell)@, old(cell).violated()),
        final(cell).violated() == old(cell).violated(),
{
    if cell.is_violated() {
        Verdict::Violation
    } else {
        match report {
            Poll::Ready(_) => Verdict::Finish,
            Poll::Pending => match cell.try_take() {
                Some(item) => Verdict::Produce(item),
                None => Verdict::Resume,
            },
        }
    }
}

/// The patience left after one more resumption that brought no item, or
/// `None` if the computation is taken to have stalled with it. A call that
/// starts out with a patience of `n`, at least one, resumes its computation
/// `n` times in a row without an item before it gives up.
pub open spec fn patience_left(patience: u64) -> Option<u64> {
    if patience > 1 {
        Some((patience - 1) as u64)
    } else {
        None
    }
}

/// Spends patience on a resumption that brought no item; see
/// [`patience_left`].
pub fn spend_patience(patience: u64) -> (left: Option<u64>)
    ensures
        left == patience_left(patience),
{
    if patience > 1 {
        Some(patience - 1)
    } else {
        None
    }
}

/// Where a generator stands.
enum Stage {
    /// The computation may be resumed.
    Active,
    /// The computation completed or stalled.
    Exhausted,
    /// The computation met a protocol violation.
    Violated,
}

/// A sequence of items that is computed on demand by an async function.
///
/// [`generate`] returns this. A generator is active until its computation
/// completes, and exhausted from then on.
#[verifier::reject_recursive_types(Item)]
#[verifier::reject_recursive_types(Fut)]
pub struct Generator<Item, Fut: Future<Output = ()>> {
    shared: Arc<Mutex<Handoff<Item>>>,
    task: Task<Fut>,
    stage: Stage,
}

impl<Item, Fut: Future<Output = ()>> Generator<Item, Fut> {
    /// Whether the sequence has ended.
    pub closed spec fn is_exhausted(&self) -> bool {
        !(self.stage is Active)
    }

    /// Whether the sequence has ended on a protocol violation.
    pub closed spec fn is_violated(&self) -> bool {
        self.stage is Violated
    }

    /// The shared cell that this generator drains.
    pub closed spec fn cell(&self) -> Mutex<Handoff<Item>> {
        *self.shared
    }

    /// The computation as the function given to [`generate`] returned it.
    pub closed spec fn computation(&self) -> Fut {
        self.task.origin()
    }

    /// Whether the computation has reported that it is complete.
    pub closed spec fn completed(&self) -> bool {
        self.task.finished()
    }

    /// How many times the computation has been resumed so far.
    pub closed spec fn resumptions(&self) -> nat {
        self.task.resumptions()
    }

    /// A generator is coherent if it is exhausted once its computation has
    /// completed, so that a completed computation is never resumed.
    /// [`generate`] returns a coherent generator and every call keeps it so.
    pub open spec fn coherent(&self) -> bool {
        self.completed() ==> self.is_exhausted()
    }

    /// What one call of [`next`](Generator::next) can do: it answers `item`
    /// and takes the generator from `self` to `after`.
    ///
    /// The generator is exhausted afterwards exactly if the answer is `None`,
    /// and a violation is one way for it to be exhausted. An exhausted
    /// generator is left exactly as it was, so that its computation is not
    /// resumed again. An active one is resumed at least once and at most
    /// [`STALL_LIMIT`] times. An item is owed only by a computation that has
    /// not completed. Without a violation, `None` is owed only if the
    /// computation has completed or has used up all `STALL_LIMIT`
    /// resumptions. No call changes which cell the generator drains or
    /// which computation it stands for.
    pub open spec fn pulls(self, item: Option<Item>, after: Self) -> bool {
        &&& after.is_exhausted() <==> item is None
        &&& after.is_violated() ==> after.is_exhausted()
        &&& after.coherent()
        &&& self.is_exhausted() ==> after == self
        &&& !self.is_exhausted() ==> self.resumptions() < after.resumptions() <= self.resumptions()
            + STALL_LIMIT
        &&& !self.is_exhausted() && item is None && !after.is_violated() ==> after.completed()
            || after.resumptions() == self.resumptions() + STALL_LIMIT
        &&& after.cell() == self.cell()
        &&& after.computation() == self.computation()
    }

    /// The next item of the sequence, or `None` once it has ended.
    ///
    /// An exhausted generator answers `None` without resuming anything. An
    /// active one resumes its computation until [`judge`] finds an item, the
    /// end or a violation; see [`pulls`](Generator::pulls) for what holds of
    /// every call. Each resumption without an item costs patience as
    /// [`spend_patience`] says, out of [`STALL_LIMIT`] for each call: a
    /// computation that has none left is taken to have stalled, which ends
    /// the sequence too. Whether the sequence ended on a violation is for
    /// [`violation`](Generator::violation) to say; [`pull`](Generator::pull)
    /// answers with it.
    pub fn next(&mut self) -> (item: Option<Item>)
        requires
            old(self).coherent(),
        ensures
            old(self).pulls(item, *final(self)),
    {
        match self.stage {
            Stage::Active => {},
            _ => {
                return None;
            },
        }
        let waker = waker_of(Arc::new(NoopWake));
        let mut cx = Context::from_waker(&waker);
        let mut patience: u64 = STALL_LIMIT;
        loop
            invariant
                old(self).stage is Active,
                self.stage is Active,
                !self.task.finished(),
                1 <= patience <= STALL_LIMIT,
                self.task.resumptions() == old(self).task.resumptions() + (STALL_LIMIT - patience),
                self.task.origin() == old(self).task.origin(),
                self.shared == old(self).shared,
            decreases patience,
        {
            let report = self.task.resume(&mut cx);
            let mut guard = lock(&self.shared);
            match judge(report, guarded(&mut guard)) {
                Verdict::Produce(item) => {
                    return Some(item);
                },
                Verdict::Finish => {
                    self.stage = Stage::Exhausted;
                    return None;
                },
                Verdict::Violation => {
                    self.stage = Stage::Violated;
                    return None;
                },
                Verdict::Resume => match spend_patience(patience) {
                    Some(left) => {
                        patience = left;
                    },
                    None => {
                        self.stage = Stage::Exhausted;
                        return None;
                    },
                },
            }
        }
    }

    /// The next item of the sequence, `Ok(None)` once it has ended, or the
    /// protocol violation on which it ended.
    ///
    /// This is [`next`](Generator::next) with the violation in the answer.
    /// A sequence that ended on a violation answers with it every time.
    pub fn pull(&mut self) -> (answer: Result<Option<Item>, ProtocolViolation>)
        requires
            old(self).coherent(),
        ensures
            answer is Err <==> final(self).is_violated(),
            answer matches Ok(item) ==> old(self).pulls(item, *final(self)),
            answer is Err ==> old(self).pulls(None, *final(self)),
    {
        match self.next() {
            Some(item) => Ok(Some(item)),
            None => match self.violation() {
                Some(violation) => Err(violation),
                None => Ok(None),
            },
        }
    }

    /// The protocol violation on which the sequence ended, if it ended on
    /// one.
    pub fn violation(&self) -> (fault: Option<ProtocolViolation>)
        ensures
            fault is Some <==> self.is_violated(),
    {
        match self.stage {
            Stage::Violated => Some(ProtocolViolation),
            _ => None,
        }
    }
}

/// The end of the sequence is final. Take any run of calls of
/// [`Generator::next`], `states` being the generator before and after each
/// call and `answers` what each call returned: once a call has answered
/// `None`, every later call answers `None` too and leaves the generator as
/// that call left it.
pub proof fn lemma_end_of_sequence_is_final<Item, Fut: Future<Output = ()>>(
    states: Seq<Generator<Item, Fut>>,
    answers: Seq<Option<Item>>,
    ended: int,
    later: int,
)
    requires
        states.len() == answers.len() + 1,
        forall|i: int|
            0 <= i < answers.len() ==> states[i].pulls(#[trigger] answers[i], states[i + 1]),
        0 <= ended <= later < answers.len(),
        answers[ended] is None,
    ensures
        answers[later] is None,
        states[later + 1] == states[ended + 1],
    decreases later - ended,
{
    if ended < later {
        lemma_end_of_sequence_is_final(states, answers, ended, later - 1);
        assert(states[later].pulls(answers[later], states[later + 1]));
    } else {
        assert(states[ended].pulls(answers[ended], states[ended + 1]));
    }
}

/// Turns an async function into a generator.
///
/// `f` is called at once, with a fresh [`Communication`] handle; the future
/// it returns is the computation, which first runs when the first item is
/// asked for. The generator starts out active, with its computation not yet
/// resumed, and drains the cell that the handle writes to.
pub fn generate<Item, F, Fut>(f: F) -> (generator: Generator<Item, Fut>) where
    F: FnOnce(Communication<Item>) -> Fut,
    Fut: Future<Output = ()>,

    requires
        forall|co: Communication<Item>| f.requires((co,)),
    ensures
        !generator.is_exhausted(),
        !generator.is_violated(),
        !generator.completed(),
        generator.resumptions() == 0,
        generator.coherent(),
        exists|co: Communication<Item>|
            co.cell() == generator.cell() && #[trigger] f.ensures((co,), generator.computation()),
{
    let shared = Arc::new(Mutex::new(Handoff::new()));
    let co = Communication::new(share(&shared));
    let ghost handle = co;
    let computation = f(co);
    let generator = Generator { shared, task: Task::new(computation), stage: Stage::Active };
    assert(handle.cell() == generator.cell() && f.ensures((handle,), generator.computation()));
    generator
}

} // verus!

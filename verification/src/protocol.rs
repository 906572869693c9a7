//! The exchange as a whole: an emitting side and a driving side that take
//! turns over one cell.
//!
//! The model here puts [`emit_outcome`] and [`verdict_of`] together. Its
//! emitting side is a [`Script`], a computation that awaits one emit after
//! another; its driving side is [`pull`], which does what
//! [`Generator::next`](crate::Generator::next) does. The lemmas state what
//! the protocol owes its users: every item crosses the cell once, the items
//! come out in the order in which they were emitted, no violation arises
//! between the two sides, a violation brought in from elsewhere ends the
//! sequence and is reported, and the end of the sequence is final.

use crate::emit::{emit_cell, emit_outcome, emit_report, Progress, ProtocolViolation};
use crate::generator::{drained, patience_left, verdict_of, Verdict};
use std::task::Poll;
use vstd::prelude::*;

verus! {

/// A computation that emits the items of a sequence in order, awaiting each
/// emit before the next, and then completes.
pub struct Script<Item> {
    /// The items not yet handed over, the first being the one in the making.
    pub rest: Seq<Item>,
    /// Whether the computation is suspended in the emit of `rest[0]`, with
    /// nothing left to place.
    pub placed: bool,
}

/// A script, the cell it shares with its driver, and the driver's state.
pub struct Session<Item> {
    pub script: Script<Item>,
    /// The content of the cell.
    pub cell: Option<Item>,
    /// Whether the cell is marked as violated.
    pub marked: bool,
    /// Whether the driver has ended the sequence.
    pub exhausted: bool,
    /// Whether the driver has ended the sequence on a violation.
    pub violated: bool,
}

/// One resumption of a script: the script, the content of the cell and its
/// mark afterwards, and what the script reports. It runs through emits that
/// complete, up to the first that suspends or to its end.
pub open spec fn resume_script<Item>(script: Script<Item>, cell: Option<Item>, marked: bool) -> (
    Script<Item>,
    Option<Item>,
    bool,
    Progress,
)
    decreases script.rest.len(),
{
    if script.rest.len() == 0 {
        (script, cell, marked, Poll::Ready(()))
    } else {
        let pending = if script.placed {
            None
        } else {
            Some(script.rest[0])
        };
        let outcome = emit_outcome(pending, cell);
        match outcome {
            Ok(Poll::Ready(_)) => resume_script(
                Script { rest: script.rest.drop_first(), placed: false },
                emit_cell(pending, cell),
                marked,
            ),
            _ => (
                Script { rest: script.rest, placed: true },
                emit_cell(pending, cell),
                marked || outcome is Err,
                emit_report(outcome),
            ),
        }
    }
}

/// One call for the next item: the session afterwards and the answer.
/// `patience` is what the call has left for resumptions that bring no item.
pub open spec fn pull<Item>(session: Session<Item>, patience: u64) -> (Session<Item>, Option<Item>)
    decreases patience,
{
    if session.exhausted {
        (session, None)
    } else {
        let (script, cell, marked, report) = resume_script(
            session.script,
            session.cell,
            session.marked,
        );
        let after = Session {
            script,
            cell: drained(report, cell, marked),
            marked,
            exhausted: false,
            violated: false,
        };
        match verdict_of(report, cell, marked) {
            Verdict::Produce(item) => (after, Some(item)),
            Verdict::Finish => (Session { exhausted: true, ..after }, None),
            Verdict::Violation => (Session { exhausted: true, violated: true, ..after }, None),
            Verdict::Resume => match patience_left(patience) {
                Some(left) => pull(after, left),
                None => (Session { exhausted: true, ..after }, None),
            },
        }
    }
}

/// `count` calls for the next item, one after the other, each with the same
/// patience: the session afterwards and the answers in order.
pub open spec fn run<Item>(session: Session<Item>, count: nat, patience: u64) -> (
    Session<Item>,
    Seq<Option<Item>>,
)
    decreases count,
{
    if count == 0 {
        (session, Seq::empty())
    } else {
        let (before, answers) = run(session, (count - 1) as nat, patience);
        let (after, answer) = pull(before, patience);
        (after, answers.push(answer))
    }
}

/// The session that [`generate`](crate::generate) sets up around a script
/// for `items`: nothing run, the cell empty and unmarked, the driver active.
pub open spec fn start<Item>(items: Seq<Item>) -> Session<Item> {
    Session {
        script: Script { rest: items, placed: false },
        cell: None,
        marked: false,
        exhausted: false,
        violated: false,
    }
}

/// The session around a script for `items` after `count` calls for the next
/// item.
pub open spec fn session_after<Item>(items: Seq<Item>, count: nat) -> Session<Item> {
    if count == 0 {
        start(items)
    } else if count <= items.len() {
        Session { script: Script { rest: items.skip(count - 1), placed: true }, ..start(items) }
    } else {
        Session { exhausted: true, ..start(Seq::empty()) }
    }
}

/// The answers that a script for `items` owes to `count` calls: the items in
/// order, then `None` for every call beyond them.
pub open spec fn answers_owed<Item>(items: Seq<Item>, count: nat) -> Seq<Option<Item>> {
    Seq::new(
        count,
        |k: int|
            if k < items.len() {
                Some(items[k])
            } else {
                None
            },
    )
}

/// An item crosses the cell once and unchanged. Its emit, resumed on an
/// empty cell, places it and suspends; the driver takes a suspension over an
/// occupied cell for that very item and leaves the cell empty; the emit,
/// resumed again, completes and leaves the cell empty.
pub proof fn lemma_item_crosses_once<Item>(item: Item)
    ensures
        emit_outcome(Some(item), None) == Ok::<Progress, ProtocolViolation>(Poll::Pending),
        emit_cell(Some(item), None) == Some(item),
        verdict_of(Poll::Pending, Some(item), false) == Verdict::Produce(item),
        drained(Poll::Pending, Some(item), false) == None::<Item>,
        emit_outcome(None::<Item>, None) == Ok::<Progress, ProtocolViolation>(Poll::Ready(())),
        emit_cell(None::<Item>, None) == None::<Item>,
{
}

/// An emit that is resumed before the driver has drained the cell is a
/// violation, whether it has its item yet to place or not: the item in the
/// cell stays where it is and the emit stays suspended. The driver, finding
/// the cell marked, takes nothing out and ends the sequence on a violation,
/// whatever the computation reports.
pub proof fn lemma_undrained_cell_is_violation<Item>(
    pending: Option<Item>,
    held: Item,
    report: Progress,
)
    ensures
        emit_outcome(pending, Some(held)) == Err::<Progress, ProtocolViolation>(ProtocolViolation),
        emit_cell(pending, Some(held)) == Some(held),
        emit_report(emit_outcome(pending, Some(held))) == Poll::Pending::<()>,
        verdict_of(report, Some(held), true) == Verdict::<Item>::Violation,
        drained(report, Some(held), true) == Some(held),
{
}

/// The end of the sequence is final: an exhausted session answers `None`
/// and stays as it is, whatever its script and its cell hold.
pub proof fn lemma_exhaustion_is_final<Item>(session: Session<Item>, patience: u64)
    requires
        session.exhausted,
    ensures
        pull(session, patience) == (session, None::<Item>),
{
}

/// A computation that completes on its first resumption ends the sequence on
/// the first call, whatever an unmarked cell holds, and the cell is left
/// alone.
pub proof fn lemma_empty_computation_ends_at_once<Item>(cell: Option<Item>, patience: u64)
    ensures
        verdict_of(Poll::Ready(()), cell, false) == Verdict::<Item>::Finish,
        pull(Session { cell, ..start(Seq::<Item>::empty()) }, patience) == (
            Session { cell, exhausted: true, ..start(Seq::<Item>::empty()) },
            None::<Item>,
        ),
{
}

/// A resumption of a script never clears the mark on the cell.
pub proof fn lemma_mark_stays<Item>(script: Script<Item>, cell: Option<Item>, marked: bool)
    ensures
        marked ==> resume_script(script, cell, marked).2,
    decreases script.rest.len(),
{
    if script.rest.len() > 0 {
        let pending = if script.placed {
            None
        } else {
            Some(script.rest[0])
        };
        lemma_mark_stays(
            Script { rest: script.rest.drop_first(), placed: false },
            emit_cell(pending, cell),
            marked,
        );
    }
}

/// A violation ends the sequence and is reported. A call on an active
/// session whose cell is marked answers `None` and leaves the session
/// exhausted and violated, whatever patience the call has.
pub proof fn lemma_marked_cell_ends_sequence<Item>(session: Session<Item>, patience: u64)
    requires
        !session.exhausted,
        session.marked,
    ensures
        pull(session, patience).1 is None,
        pull(session, patience).0.exhausted,
        pull(session, patience).0.violated,
{
    lemma_mark_stays(session.script, session.cell, session.marked);
}

/// An item that is in the cell when a script's emit is resumed is a
/// violation: a call on such a session answers `None`, leaves the session
/// exhausted and violated, and leaves that item in the cell.
pub proof fn lemma_occupied_cell_ends_sequence<Item>(session: Session<Item>, patience: u64)
    requires
        !session.exhausted,
        session.script.rest.len() > 0,
        session.cell is Some,
    ensures
        pull(session, patience).1 is None,
        pull(session, patience).0.exhausted,
        pull(session, patience).0.violated,
        pull(session, patience).0.cell == session.cell,
{
}

/// Between two calls the cell is empty, and one more call hands over the
/// next item of the script or, with none left, ends the sequence. No call
/// meets a violation, and none costs any patience.
pub proof fn lemma_pull_advances_script<Item>(items: Seq<Item>, count: nat, patience: u64)
    ensures
        pull(session_after(items, count), patience) == (
            session_after(items, count + 1),
            if count < items.len() {
                Some(items[count as int])
            } else {
                None
            },
        ),
{
    let session = session_after(items, count);
    if count == 0 {
        lemma_fresh_script_resumes(items);
        if items.len() > 0 {
            assert(items.skip(0) =~= items);
        } else {
            assert(items =~= Seq::empty());
        }
    } else if count <= items.len() {
        let rest = items.skip(count - 1);
        let left = items.skip(count as int);
        assert(rest.drop_first() =~= left);
        assert(emit_outcome(None::<Item>, None) == Ok::<Progress, ProtocolViolation>(
            Poll::Ready(()),
        ));
        assert(resume_script(session.script, None, false) == resume_script(
            Script { rest: left, placed: false },
            None,
            false,
        ));
        lemma_fresh_script_resumes(left);
        if count < items.len() {
            assert(left[0] == items[count as int]);
        } else {
            assert(left =~= Seq::empty());
        }
    }
}

/// A script that is not in the middle of an emit, resumed on an empty and
/// unmarked cell, completes if it has no item left; else it places its first
/// item and suspends.
proof fn lemma_fresh_script_resumes<Item>(rest: Seq<Item>)
    ensures
        resume_script(Script { rest, placed: false }, None, false) == if rest.len() == 0 {
            (Script { rest, placed: false }, None::<Item>, false, Poll::Ready(()))
        } else {
            (Script { rest, placed: true }, Some(rest[0]), false, Poll::Pending)
        },
{
}

/// A script's items come out once each and in the order of their emits,
/// followed by `None` for as long as the consumer goes on asking; and no
/// violation arises on the way.
pub proof fn lemma_script_in_order<Item>(items: Seq<Item>, count: nat, patience: u64)
    ensures
        run(start(items), count, patience) == (
            session_after(items, count),
            answers_owed(items, count),
        ),
    decreases count,
{
    if count == 0 {
        assert(answers_owed(items, 0) =~= Seq::empty());
    } else {
        let before = (count - 1) as nat;
        lemma_script_in_order(items, before, patience);
        lemma_pull_advances_script(items, before, patience);
        let answer = if before < items.len() {
            Some(items[before as int])
        } else {
            None
        };
        assert(answers_owed(items, before).push(answer) =~= answers_owed(items, count));
    }
}

} // verus!

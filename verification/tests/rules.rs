use gen::{
    judge, resume_emit, spend_patience, AlreadyOccupied, Handoff, ProtocolViolation, Verdict,
    STALL_LIMIT,
};
use std::task::Poll;

#[test]
fn new_cell_is_empty() {
    let mut cell: Handoff<u8> = Handoff::new();
    assert!(!cell.is_occupied());
    assert!(!cell.is_violated());
    assert_eq!(cell.try_take(), None);
}

#[test]
fn put_then_take_returns_the_item() {
    let mut cell = Handoff::new();
    assert_eq!(cell.put(7), Ok(()));
    assert!(cell.is_occupied());
    assert_eq!(cell.try_take(), Some(7));
    assert!(!cell.is_occupied());
    assert_eq!(cell.try_take(), None);
}

#[test]
fn put_on_occupied_cell_is_refused() {
    let mut cell = Handoff::new();
    assert_eq!(cell.put("first"), Ok(()));
    assert_eq!(cell.put("second"), Err(AlreadyOccupied));
    assert_eq!(cell.try_take(), Some("first"));
}

#[test]
fn cell_can_be_used_again_after_take() {
    let mut cell = Handoff::new();
    assert_eq!(cell.put(1), Ok(()));
    assert_eq!(cell.try_take(), Some(1));
    assert_eq!(cell.put(2), Ok(()));
    assert_eq!(cell.try_take(), Some(2));
}

#[test]
fn emit_places_item_and_suspends() {
    let mut cell = Handoff::new();
    let mut pending = Some(5);
    assert_eq!(resume_emit(&mut pending, &mut cell), Ok(Poll::Pending));
    assert_eq!(pending, None);
    assert_eq!(cell.try_take(), Some(5));
}

#[test]
fn emit_completes_once_cell_is_drained() {
    let mut cell = Handoff::new();
    let mut pending = Some(5);
    assert_eq!(resume_emit(&mut pending, &mut cell), Ok(Poll::Pending));
    assert_eq!(judge(Poll::Pending, &mut cell), Verdict::Produce(5));
    assert_eq!(resume_emit(&mut pending, &mut cell), Ok(Poll::Ready(())));
    assert_eq!(pending, None);
    assert!(!cell.is_occupied());
}

#[test]
fn emit_resumed_before_drain_is_violation() {
    let mut cell = Handoff::new();
    let mut pending = Some(5);
    assert_eq!(resume_emit(&mut pending, &mut cell), Ok(Poll::Pending));
    assert!(!cell.is_violated());
    assert_eq!(resume_emit(&mut pending, &mut cell), Err(ProtocolViolation));
    assert!(cell.is_violated());
    assert_eq!(cell.try_take(), Some(5));
}

#[test]
fn emit_onto_occupied_cell_is_violation() {
    let mut cell = Handoff::new();
    assert_eq!(cell.put(1), Ok(()));
    let mut pending = Some(2);
    assert_eq!(resume_emit(&mut pending, &mut cell), Err(ProtocolViolation));
    assert_eq!(pending, None);
    assert!(cell.is_violated());
    assert_eq!(cell.try_take(), Some(1));
}

#[test]
fn owned_payload_crosses_unchanged() {
    let mut cell = Handoff::new();
    let mut pending = Some(String::from("payload"));
    assert_eq!(resume_emit(&mut pending, &mut cell), Ok(Poll::Pending));
    assert_eq!(
        judge(Poll::Pending, &mut cell),
        Verdict::Produce(String::from("payload"))
    );
    assert_eq!(judge(Poll::Pending, &mut cell), Verdict::Resume);
}

#[test]
fn judge_takes_item_after_suspension() {
    let mut cell = Handoff::new();
    assert_eq!(cell.put(9), Ok(()));
    assert_eq!(judge(Poll::Pending, &mut cell), Verdict::Produce(9));
    assert!(!cell.is_occupied());
}

#[test]
fn judge_resumes_after_suspension_without_item() {
    let mut cell: Handoff<u8> = Handoff::new();
    assert_eq!(judge(Poll::Pending, &mut cell), Verdict::Resume);
    assert!(!cell.is_occupied());
}

#[test]
fn judge_finishes_on_completion() {
    let mut cell: Handoff<u8> = Handoff::new();
    assert_eq!(judge(Poll::Ready(()), &mut cell), Verdict::Finish);
}

#[test]
fn judge_leaves_cell_alone_on_completion() {
    let mut cell = Handoff::new();
    assert_eq!(cell.put(3), Ok(()));
    assert_eq!(judge(Poll::Ready(()), &mut cell), Verdict::Finish);
    assert_eq!(cell.try_take(), Some(3));
}

#[test]
fn stall_limit_is_the_largest_u64() {
    assert_eq!(STALL_LIMIT, 18_446_744_073_709_551_615);
}

#[test]
fn emit_without_violation_leaves_cell_unmarked() {
    let mut cell = Handoff::new();
    let mut pending = Some(5);
    assert_eq!(resume_emit(&mut pending, &mut cell), Ok(Poll::Pending));
    assert!(!cell.is_violated());
    assert_eq!(cell.try_take(), Some(5));
    assert_eq!(resume_emit(&mut pending, &mut cell), Ok(Poll::Ready(())));
    assert!(!cell.is_violated());
}

#[test]
fn mark_stays_and_keeps_content() {
    let mut cell = Handoff::new();
    assert_eq!(cell.put(4), Ok(()));
    cell.mark_violated();
    assert!(cell.is_violated());
    assert!(cell.is_occupied());
    assert_eq!(cell.try_take(), Some(4));
    assert!(cell.is_violated());
    assert_eq!(cell.put(6), Ok(()));
    assert!(cell.is_violated());
}

#[test]
fn judge_reports_violation_on_marked_cell() {
    let mut cell = Handoff::new();
    assert_eq!(cell.put(3), Ok(()));
    cell.mark_violated();
    assert_eq!(judge(Poll::Pending, &mut cell), Verdict::Violation);
    assert!(cell.is_violated());
    assert_eq!(judge(Poll::Ready(()), &mut cell), Verdict::Violation);
    assert_eq!(cell.try_take(), Some(3));
}

#[test]
fn judge_reports_violation_on_marked_empty_cell() {
    let mut cell: Handoff<u8> = Handoff::new();
    cell.mark_violated();
    assert_eq!(judge(Poll::Pending, &mut cell), Verdict::Violation);
    assert_eq!(judge(Poll::Ready(()), &mut cell), Verdict::Violation);
}

#[test]
fn violation_travels_from_emit_to_judge() {
    let mut cell = Handoff::new();
    let mut pending = Some(8);
    assert_eq!(resume_emit(&mut pending, &mut cell), Ok(Poll::Pending));
    assert_eq!(resume_emit(&mut pending, &mut cell), Err(ProtocolViolation));
    assert_eq!(judge(Poll::Pending, &mut cell), Verdict::Violation);
    assert_eq!(cell.try_take(), Some(8));
}

#[test]
fn patience_is_spent_one_by_one() {
    assert_eq!(spend_patience(STALL_LIMIT), Some(STALL_LIMIT - 1));
    assert_eq!(spend_patience(3), Some(2));
    assert_eq!(spend_patience(2), Some(1));
}

#[test]
fn last_patience_means_stalled() {
    assert_eq!(spend_patience(1), None);
    assert_eq!(spend_patience(0), None);
}

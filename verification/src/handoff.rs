//! The single-slot cell through which one item at a time changes hands.

use vstd::prelude::*;

verus! {

/// Refusal of [`Handoff::put`]: the cell held an item already.
#[derive(Debug, PartialEq, Eq)]
pub struct AlreadyOccupied;

/// A slot that is empty or holds one item, and a mark that the exchange over
/// it was violated.
///
/// Its view is the slot's content. The emitting side writes with
/// [`put`](Handoff::put), the driving side reads and clears with
/// [`try_take`](Handoff::try_take). The mark is set by
/// [`mark_violated`](Handoff::mark_violated) and never cleared.
pub struct Handoff<Item> {
    held: Option<Item>,
    violated: bool,
}

impl<Item> View for Handoff<Item> {
    type V = Option<Item>;

    closed spec fn view(&self) -> Option<Item> {
        self.held
    }
}

impl<Item> Handoff<Item> {
    /// Whether the exchange over this cell was violated.
    pub closed spec fn violated(&self) -> bool {
        self.violated
    }

    /// An empty cell without the mark.
    pub fn new() -> (cell: Self)
        ensures
            cell@ is None,
            !cell.violated(),
    {
        Handoff { held: None, violated: false }
    }

    /// Whether the cell holds an item.
    pub fn is_occupied(&self) -> (occupied: bool)
        ensures
            occupied == (self@ is Some),
    {
        self.held.is_some()
    }

    /// Whether the exchange over this cell was violated.
    pub fn is_violated(&self) -> (violated: bool)
        ensures
            violated == self.violated(),
    {
        self.violated
    }

    /// Marks the exchange over this cell as violated. The content stays.
    pub fn mark_violated(&mut self)
        ensures
            final(self).violated(),
            final(self)@ == old(self)@,
    {
        self.violated = true;
    }

    /// Takes out whatever the cell holds and leaves the cell empty.
    pub fn try_take(&mut self) -> (taken: Option<Item>)
        ensures
            taken == old(self)@,
            final(self)@ is None,
            final(self).violated() == old(self).violated(),
    {
        self.held.take()
    }

    /// Stores `item` if the cell is empty. An occupied cell stays as it is and
    /// the call is refused, `item` being dropped.
    pub fn put(&mut self, item: Item) -> (stored: Result<(), AlreadyOccupied>)
        ensures
            old(self)@ is None ==> stored is Ok && final(self)@ == Some(item),
            old(self)@ is Some ==> stored is Err && final(self)@ == old(self)@,
            final(self).violated() == old(self).violated(),
    {
        if self.held.is_some() {
            Err(AlreadyOccupied)
        } else {
            self.held = Some(item);
            Ok(())
        }
    }
}

} // verus!

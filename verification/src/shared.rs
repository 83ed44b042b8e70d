//! The cell through which a peripheral is shared between a foreground loop
//! and the interrupt handler of that peripheral.
//!
//! The cell only keeps the rules of the hand-off. Whoever holds it wraps each
//! access in a critical section, so that the handler cannot run in between.

use vstd::prelude::*;

verus! {

/// Holds a peripheral from its hand-off on, and remembers whether the
/// interrupt line that belongs to it has been unmasked.
pub struct SharedCell<T> {
    slot: Option<T>,
    unmasked: bool,
}

impl<T> SharedCell<T> {
    /// Whether the peripheral has been handed over.
    pub closed spec fn is_set(&self) -> bool {
        self.slot is Some
    }

    /// The peripheral in the cell.
    pub closed spec fn value(&self) -> T
        recommends
            self.is_set(),
    {
        self.slot->Some_0
    }

    /// Whether the interrupt line has been unmasked.
    pub closed spec fn is_unmasked(&self) -> bool {
        self.unmasked
    }

    /// The handler can only run over a cell that holds its peripheral.
    pub open spec fn wf(&self) -> bool {
        self.is_unmasked() ==> self.is_set()
    }

    /// An empty cell whose interrupt line is masked.
    pub fn new() -> (cell: SharedCell<T>)
        ensures
            cell.wf(),
            !cell.is_set(),
            !cell.is_unmasked(),
    {
        SharedCell { slot: None, unmasked: false }
    }

    /// Hands the peripheral over. A cell that is populated keeps what it
    /// holds and gives the newcomer back.
    pub fn set(&mut self, value: T) -> (outcome: Result<(), T>)
        ensures
            final(self).is_set(),
            final(self).is_unmasked() == old(self).is_unmasked(),
            old(self).wf() ==> final(self).wf(),
            old(self).is_set() ==> outcome == Err::<(), T>(value) && final(self).value() == old(
                self,
            ).value(),
            !old(self).is_set() ==> outcome is Ok && final(self).value() == value,
    {
        if self.slot.is_some() {
            Err(value)
        } else {
            self.slot = Some(value);
            Ok(())
        }
    }

    /// Whether the peripheral has been handed over.
    pub fn is_populated(&self) -> (populated: bool)
        ensures
            populated == self.is_set(),
    {
        self.slot.is_some()
    }

    /// Whether the interrupt line has been unmasked.
    pub fn is_line_unmasked(&self) -> (unmasked: bool)
        ensures
            unmasked == self.is_unmasked(),
    {
        self.unmasked
    }

    /// Records that the interrupt line is unmasked from now on. The cell must
    /// hold its peripheral by then.
    pub fn unmask(&mut self)
        requires
            old(self).is_set(),
        ensures
            final(self).wf(),
            final(self).is_unmasked(),
            final(self).is_set(),
            final(self).value() == old(self).value(),
    {
        self.unmasked = true;
    }

    /// The foreground loop's access to the peripheral.
    pub fn access(&mut self) -> (peripheral: &mut T)
        requires
            old(self).is_set(),
        ensures
            *peripheral == old(self).value(),
            final(self).is_set(),
            final(self).value() == *final(peripheral),
            final(self).is_unmasked() == old(self).is_unmasked(),
            final(self).wf(),
    {
        self.slot.as_mut().unwrap()
    }

    /// The handler's access to the peripheral. That the handler runs shows
    /// that the line is unmasked, and so that the cell is populated.
    pub fn access_from_handler(&mut self) -> (peripheral: &mut T)
        requires
            old(self).wf(),
            old(self).is_unmasked(),
        ensures
            *peripheral == old(self).value(),
            final(self).wf(),
            final(self).is_unmasked(),
            final(self).value() == *final(peripheral),
    {
        self.access()
    }
}

} // verus!

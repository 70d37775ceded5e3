//! The log of admitted paints that wait to be stored.

use crate::time::Timestamp;
use vstd::prelude::*;

verus! {

/// One admitted paint: where, which colour, by whom and when.
#[derive(Clone, Copy, Debug, PartialEq, Eq)]
pub struct PaintAction {
    pub x: u16,
    pub y: u16,
    pub color: (u8, u8, u8),
    pub uid: i32,
    pub time: Timestamp,
}

/// Admitted paints in the order in which they were admitted.
pub struct ActionLog {
    entries: Vec<PaintAction>,
}

impl View for ActionLog {
    type V = Seq<PaintAction>;

    closed spec fn view(&self) -> Seq<PaintAction> {
        self.entries@
    }
}

impl ActionLog {
    /// An empty log.
    pub fn new() -> (log: ActionLog)
        ensures
            log@ == Seq::<PaintAction>::empty(),
    {
        ActionLog { entries: Vec::new() }
    }

    /// The number of paints that wait.
    pub fn len(&self) -> (n: usize)
        ensures
            n == self@.len(),
    {
        self.entries.len()
    }

    /// Adds one paint at the end.
    pub fn append(&mut self, action: PaintAction)
        ensures
            final(self)@ == old(self)@.push(action),
    {
        self.entries.push(action);
    }

    /// Takes every paint out, oldest first, and leaves the log empty.
    pub fn drain(&mut self) -> (taken: Vec<PaintAction>)
        ensures
            taken@ == old(self)@,
            final(self)@ == Seq::<PaintAction>::empty(),
    {
        let mut taken: Vec<PaintAction> = Vec::new();
        taken.append(&mut self.entries);
        taken
    }
}

} // verus!

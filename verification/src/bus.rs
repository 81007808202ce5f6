//! The vocabulary between the reset engine and whoever drives the hardware.

use vstd::prelude::*;

verus! {

/// The one error of the system: an erase or a write that the controller did
/// not report as completed.
#[derive(Clone, Copy, PartialEq, Eq, Structural, Debug)]
pub struct Fault;

/// A storage cell of the configuration region.
#[derive(Clone, Copy, PartialEq, Eq, Structural, Debug)]
pub enum Cell {
    Optrl,
    Optrh,
    Wrprot1l,
    Wrprot1h,
    Wrprot2l,
}

/// The two nested locks of the flash controller.
#[derive(Clone, Copy, PartialEq, Eq, Structural, Debug)]
pub enum Lock {
    /// Guards every program and erase operation.
    General,
    /// Guards the configuration region; opens only while `General` is open.
    Region,
}

/// One access to the hardware, asked of the driver.
#[derive(Clone, Copy, PartialEq, Eq, Structural, Debug)]
pub enum Action {
    /// Read the raw word of a cell. Answered by `Event::Word`.
    ReadCell(Cell),
    /// Write a raw word to a cell.
    WriteCell(Cell, u32),
    /// Read the busy flag. Answered by `Event::Flag`.
    ReadBusy,
    /// Read the completion-event flag. Answered by `Event::Flag`.
    ReadEop,
    /// Clear the completion-event flag.
    ClearEop,
    /// Read whether a lock is closed. Answered by `Event::Flag`.
    ReadLock(Lock),
    /// Write a word to the key register of a lock.
    WriteKey(Lock, u32),
    /// Close a lock.
    SetLock(Lock),
    /// Set the erase-mode bit.
    SetErase,
    /// Clear the erase-mode bit.
    ClearErase,
    /// Enter the interrupt-free section.
    Mask,
    /// Leave the interrupt-free section.
    Unmask,
}

/// What the hardware answered to an `Action`.
#[derive(Clone, Copy, PartialEq, Eq, Structural, Debug)]
pub enum Event {
    /// The access was made; it has no value.
    Done,
    /// The flag that was read.
    Flag(bool),
    /// The word that was read.
    Word(u32),
}

/// Byte offset of a cell from the start of the register block.
pub open spec fn offset_of(cell: Cell) -> usize {
    match cell {
        Cell::Optrl => 0x00,
        Cell::Optrh => 0x04,
        Cell::Wrprot1l => 0x08,
        Cell::Wrprot1h => 0x0c,
        Cell::Wrprot2l => 0x10,
    }
}

/// Whether `event` is an answer of the kind that `action` calls for.
pub open spec fn answers(action: Action, event: Event) -> bool {
    match action {
        Action::ReadCell(_) => event is Word,
        Action::ReadBusy | Action::ReadEop | Action::ReadLock(_) => event is Flag,
        _ => event is Done,
    }
}

impl Cell {
    /// Byte offset of the cell from the start of the register block.
    pub fn offset(self) -> (r: usize)
        ensures
            r == offset_of(self),
    {
        match self {
            Cell::Optrl => 0x00,
            Cell::Optrh => 0x04,
            Cell::Wrprot1l => 0x08,
            Cell::Wrprot1h => 0x0c,
            Cell::Wrprot2l => 0x10,
        }
    }
}

impl Action {
    /// Whether `event` is an answer of the kind that this request calls for.
    pub fn answered_by(self, event: Event) -> (r: bool)
        ensures
            r == answers(self, event),
    {
        match self {
            Action::ReadCell(_) => matches!(event, Event::Word(_)),
            Action::ReadBusy | Action::ReadEop | Action::ReadLock(_) => matches!(
                event,
                Event::Flag(_)
            ),
            _ => matches!(event, Event::Done),
        }
    }
}

} // verus!

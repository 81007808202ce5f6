//! The register codec: the doubled storage format of a cell, and the erase
//! and write cycles on a single cell.

use vstd::prelude::*;
use core::marker::PhantomData;
use crate::bus::{answers, Action, Cell, Event, Fault};

verus! {

/// Least significant halfword of the OPTR register.
pub struct OPTRL;

/// Most significant halfword of the OPTR register.
pub struct OPTRH;

/// Least significant halfword of the WRPROT1 register.
pub struct WRPROT1L;

/// Most significant halfword of the WRPROT1 register.
pub struct WRPROT1H;

/// Least significant halfword of the WRPROT2 register.
pub struct WRPROT2L;

/// The raw word that stores `value`: the complement of `value` in the upper
/// half, `value` in the lower half.
pub open spec fn encode(value: u16) -> u32 {
    ((0xffff - value) * 0x1_0000 + value) as u32
}

/// The value that a raw word stores, if its upper half is the complement of
/// its lower half.
pub open spec fn decode(word: u32) -> Option<u16> {
    if word / 0x1_0000 + word % 0x1_0000 == 0xffff {
        Some((word % 0x1_0000) as u16)
    } else {
        None
    }
}

/// Encoding then decoding gives the value back; a word decodes to a value
/// only if it is the encoding of that value.
pub proof fn lemma_round_trip(value: u16, word: u32)
    ensures
        decode(encode(value)) == Some(value),
        decode(word) == Some(value) <==> word == encode(value),
{
    let v: u16 = value;
    assert(((0xffff - v) * 0x1_0000 + v) / 0x1_0000 == 0xffff - v) by (nonlinear_arith)
        requires
            0 <= v < 0x1_0000,
    ;
    assert(((0xffff - v) * 0x1_0000 + v) % 0x1_0000 == v) by (nonlinear_arith)
        requires
            0 <= v < 0x1_0000,
    ;
    assert(word == (word / 0x1_0000) * 0x1_0000 + word % 0x1_0000) by (nonlinear_arith);
}

/// A word whose upper half is not the bitwise complement of its lower half
/// decodes to nothing, and every other word decodes to its lower half.
pub proof fn lemma_decode_bits(word: u32)
    ensures
        (word >> 16) != (!word & 0xffff) ==> decode(word) is None,
        (word >> 16) == (!word & 0xffff) ==> decode(word) == Some((word & 0xffff) as u16),
{
    assert(word >> 16 == word / 0x1_0000) by (bit_vector);
    assert(word & 0xffff == word % 0x1_0000) by (bit_vector);
    assert(((word >> 16) == (!word & 0xffff)) <==> ((word >> 16) + (word & 0xffff) == 0xffff))
        by (bit_vector);
}

/// The raw word that stores `value`.
pub fn encode_u16(value: u16) -> (r: u32)
    ensures
        r == encode(value),
{
    let value: u32 = value as u32;
    let r: u32 = (!value << 16) | (value & 0xffff);
    assert(value <= 0xffff ==> ((!value << 16) | (value & 0xffff)) == (0xffffu32 - value)
        * 0x1_0000 + value) by (bit_vector);
    r
}

/// The value that a raw word stores, or nothing if the word is corrupt.
pub fn decode_u16(word: u32) -> (r: Option<u16>)
    ensures
        r == decode(word),
{
    proof {
        lemma_decode_bits(word);
    }
    if (word >> 16) == (!word & 0xffff) {
        Some((word & 0xffff) as u16)
    } else {
        None
    }
}

/// Where an erase or write cycle stands.
#[derive(Clone, Copy, PartialEq, Eq, Structural, Debug)]
pub enum Stage {
    /// The erase-mode bit is to be set.
    Mode,
    /// The word is to be written to the cell.
    Pulse,
    /// The controller is polled until it is no longer busy.
    Busy,
    /// The completion-event flag is to be looked at.
    Check,
    /// The completion-event flag is to be cleared.
    Ack,
    /// The erase-mode bit is to be cleared.
    Leave,
    /// Nothing is left to do.
    Ended,
}

/// One erase or write cycle on one cell.
#[derive(Clone, Copy, PartialEq, Eq, Structural, Debug)]
pub struct Cycle {
    /// The cell written to.
    pub cell: Cell,
    /// The raw word written to it.
    pub word: u32,
    /// Whether the cycle runs in erase mode.
    pub erasing: bool,
    /// Where the cycle stands.
    pub stage: Stage,
    /// Whether the controller failed to report completion.
    pub fault: bool,
}

impl Cycle {
    /// The request that the cycle waits on, if it has not ended.
    pub open spec fn pending(self) -> Option<Action> {
        match self.stage {
            Stage::Mode => Some(Action::SetErase),
            Stage::Pulse => Some(Action::WriteCell(self.cell, self.word)),
            Stage::Busy => Some(Action::ReadBusy),
            Stage::Check => Some(Action::ReadEop),
            Stage::Ack => Some(Action::ClearEop),
            Stage::Leave => Some(Action::ClearErase),
            Stage::Ended => None,
        }
    }

    /// The stage that follows the completion protocol: an erase cycle still
    /// has its mode bit to clear.
    pub open spec fn after_protocol(self) -> Stage {
        if self.erasing {
            Stage::Leave
        } else {
            Stage::Ended
        }
    }

    /// The completion protocol: wait while the controller is busy, then look
    /// at the completion event; clear it if it is set, fail if it is not.
    pub open spec fn awaited(self, event: Event) -> Cycle {
        match (self.stage, event) {
            (Stage::Busy, Event::Flag(busy)) => if busy {
                self
            } else {
                Cycle { stage: Stage::Check, ..self }
            },
            (Stage::Check, Event::Flag(eop)) => if eop {
                Cycle { stage: Stage::Ack, ..self }
            } else {
                Cycle { stage: self.after_protocol(), fault: true, ..self }
            },
            (Stage::Ack, Event::Done) => Cycle { stage: self.after_protocol(), ..self },
            _ => self,
        }
    }

    /// The cycle after the answer `event` to its pending request. An answer
    /// of the wrong kind, or one to an ended cycle, changes nothing.
    pub open spec fn next(self, event: Event) -> Cycle {
        match (self.stage, event) {
            (Stage::Mode, Event::Done) => Cycle { stage: Stage::Pulse, ..self },
            (Stage::Pulse, Event::Done) => Cycle { stage: Stage::Busy, ..self },
            (Stage::Leave, Event::Done) => Cycle { stage: Stage::Ended, ..self },
            _ => self.awaited(event),
        }
    }

    /// What the cycle came to, once it has ended.
    pub open spec fn result(self) -> Option<Result<(), Fault>> {
        if self.stage != Stage::Ended {
            None
        } else if self.fault {
            Some(Err(Fault))
        } else {
            Some(Ok(()))
        }
    }

    /// The request that the cycle waits on, if it has not ended.
    pub fn request(&self) -> (r: Option<Action>)
        ensures
            r == self.pending(),
    {
        match self.stage {
            Stage::Mode => Some(Action::SetErase),
            Stage::Pulse => Some(Action::WriteCell(self.cell, self.word)),
            Stage::Busy => Some(Action::ReadBusy),
            Stage::Check => Some(Action::ReadEop),
            Stage::Ack => Some(Action::ClearEop),
            Stage::Leave => Some(Action::ClearErase),
            Stage::Ended => None,
        }
    }

    /// Takes the completion protocol one answer further.
    fn wait_eop(self, event: Event) -> (r: Cycle)
        ensures
            r == self.awaited(event),
    {
        let after: Stage = if self.erasing {
            Stage::Leave
        } else {
            Stage::Ended
        };
        match (self.stage, event) {
            (Stage::Busy, Event::Flag(busy)) => if busy {
                self
            } else {
                Cycle { stage: Stage::Check, ..self }
            },
            (Stage::Check, Event::Flag(eop)) => if eop {
                Cycle { stage: Stage::Ack, ..self }
            } else {
                Cycle { stage: after, fault: true, ..self }
            },
            (Stage::Ack, Event::Done) => Cycle { stage: after, ..self },
            _ => self,
        }
    }

    /// Takes the cycle one answer further.
    pub fn step(self, event: Event) -> (r: Cycle)
        ensures
            r == self.next(event),
            self.pending() matches Some(action) && !answers(action, event) ==> r == self,
            self.pending() is None ==> r == self,
    {
        match (self.stage, event) {
            (Stage::Mode, Event::Done) => Cycle { stage: Stage::Pulse, ..self },
            (Stage::Pulse, Event::Done) => Cycle { stage: Stage::Busy, ..self },
            (Stage::Leave, Event::Done) => Cycle { stage: Stage::Ended, ..self },
            _ => self.wait_eop(event),
        }
    }

    /// What the cycle came to, once it has ended.
    pub fn outcome(&self) -> (r: Option<Result<(), Fault>>)
        ensures
            r == self.result(),
            r is None <==> self.pending() is Some,
    {
        match self.stage {
            Stage::Ended => if self.fault {
                Some(Err(Fault))
            } else {
                Some(Ok(()))
            },
            _ => None,
        }
    }
}

/// A storage cell: a 16-bit value kept with its complement in a 32-bit word.
pub struct Reg<T> {
    cell: Cell,
    phantom: PhantomData<T>,
}

impl<T> Reg<T> {
    /// The cell that this register is.
    pub closed spec fn cell(&self) -> Cell {
        self.cell
    }

    /// The cell that this register is.
    pub fn id(&self) -> (r: Cell)
        ensures
            r == self.cell(),
    {
        self.cell
    }

    /// The request that reads the raw word of the cell.
    pub fn read(&self) -> (r: Action)
        ensures
            r == Action::ReadCell(self.cell()),
    {
        Action::ReadCell(self.cell)
    }

    /// The value stored in the raw word `word` that a read of the cell gave,
    /// or nothing if the word is corrupt. A corrupt word is no fault: it is
    /// what an erased cell holds.
    pub fn read_u16(&self, word: u32) -> (r: Option<u16>)
        ensures
            r == decode(word),
    {
        decode_u16(word)
    }

    /// The cycle that writes the raw word `value` to the cell and waits for
    /// the controller to report completion.
    pub fn write(&self, value: u32) -> (r: Cycle)
        ensures
            r == (Cycle {
                cell: self.cell(),
                word: value,
                erasing: false,
                stage: Stage::Pulse,
                fault: false,
            }),
    {
        Cycle { cell: self.cell, word: value, erasing: false, stage: Stage::Pulse, fault: false }
    }

    /// The cycle that writes `value` to the cell in the doubled format.
    pub fn write_u16(&self, value: u16) -> (r: Cycle)
        ensures
            r == (Cycle {
                cell: self.cell(),
                word: encode(value),
                erasing: false,
                stage: Stage::Pulse,
                fault: false,
            }),
    {
        self.write(encode_u16(value))
    }

    /// The cycle that erases the cell: it sets the erase-mode bit, writes the
    /// all-zero word, waits for completion, and clears the bit whatever came
    /// of the wait.
    pub fn erase(&self) -> (r: Cycle)
        ensures
            r == (Cycle {
                cell: self.cell(),
                word: 0,
                erasing: true,
                stage: Stage::Mode,
                fault: false,
            }),
    {
        Cycle { cell: self.cell, word: 0, erasing: true, stage: Stage::Mode, fault: false }
    }
}

/// Register block.
pub struct RegisterBlock {
    /// 0x00: least significant halfword of the OPTR register.
    pub optrl: Reg<OPTRL>,
    /// 0x04: most significant halfword of the OPTR register.
    pub optrh: Reg<OPTRH>,
    /// 0x08: least significant halfword of the WRPROT1 register.
    pub wrprot1l: Reg<WRPROT1L>,
    /// 0x0c: most significant halfword of the WRPROT1 register.
    pub wrprot1h: Reg<WRPROT1H>,
    /// 0x10: least significant halfword of the WRPROT2 register.
    pub wrprot2l: Reg<WRPROT2L>,
}

impl RegisterBlock {
    /// The block in which every field is the cell of its name.
    pub closed spec fn layout() -> RegisterBlock {
        RegisterBlock {
            optrl: Reg { cell: Cell::Optrl, phantom: PhantomData },
            optrh: Reg { cell: Cell::Optrh, phantom: PhantomData },
            wrprot1l: Reg { cell: Cell::Wrprot1l, phantom: PhantomData },
            wrprot1h: Reg { cell: Cell::Wrprot1h, phantom: PhantomData },
            wrprot2l: Reg { cell: Cell::Wrprot2l, phantom: PhantomData },
        }
    }

    /// Every field of the layout is the cell of its name.
    pub proof fn lemma_layout()
        ensures
            Self::layout().optrl.cell() == Cell::Optrl,
            Self::layout().optrh.cell() == Cell::Optrh,
            Self::layout().wrprot1l.cell() == Cell::Wrprot1l,
            Self::layout().wrprot1h.cell() == Cell::Wrprot1h,
            Self::layout().wrprot2l.cell() == Cell::Wrprot2l,
    {
    }

    /// The register block.
    pub fn new() -> (r: RegisterBlock)
        ensures
            r == Self::layout(),
    {
        RegisterBlock {
            optrl: Reg { cell: Cell::Optrl, phantom: PhantomData },
            optrh: Reg { cell: Cell::Optrh, phantom: PhantomData },
            wrprot1l: Reg { cell: Cell::Wrprot1l, phantom: PhantomData },
            wrprot1h: Reg { cell: Cell::Wrprot1h, phantom: PhantomData },
            wrprot2l: Reg { cell: Cell::Wrprot2l, phantom: PhantomData },
        }
    }
}

} // verus!

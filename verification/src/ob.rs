//! The option-byte engine: one reset operation per configuration group.
//!
//! A reset operation reads the cells of its group and ends at once if each
//! holds its factory value. Otherwise it enters an interrupt-free section,
//! opens the general lock and then the region lock where it finds them
//! closed, erases and rewrites each cell that is not correct, closes again
//! the locks that it opened, and leaves the section. The first cycle that the
//! controller does not complete ends the programming; the locks are closed on
//! that path as on any other.

use vstd::prelude::*;
use crate::bus::{answers, Action, Cell, Event, Fault, Lock};
use crate::pac;
use crate::pac::ob::{decode, encode, Cycle, RegisterBlock, Stage};

verus! {

/// First key word of the general lock.
pub const PEKEY1: u32 = 0x89ab_cdef;

/// Second key word of the general lock.
pub const PEKEY2: u32 = 0x0203_0405;

/// First key word of the region lock.
pub const OPTKEY1: u32 = 0xfbea_d9c8;

/// Second key word of the region lock.
pub const OPTKEY2: u32 = 0x2425_2627;

/// A configuration group: the cells that make up one logical register.
#[derive(Clone, Copy, PartialEq, Eq, Structural, Debug)]
pub enum Group {
    /// The boot-option word, in two cells.
    Optr,
    /// The first write-protection word, in two cells.
    Wrprot1,
    /// The second write-protection word, in one cell.
    Wrprot2,
}

/// A cell of a group, by the half of the logical register that it holds.
#[derive(Clone, Copy, PartialEq, Eq, Structural, Debug)]
pub enum Half {
    Low,
    High,
}

impl Group {
    /// Whether the group has a cell for the upper half.
    pub open spec fn paired(self) -> bool {
        self != Group::Wrprot2
    }

    /// The cell that holds a half of the group. The single cell of an
    /// unpaired group stands for both.
    pub open spec fn cell(self, half: Half) -> Cell {
        match (self, half) {
            (Group::Optr, Half::Low) => Cell::Optrl,
            (Group::Optr, Half::High) => Cell::Optrh,
            (Group::Wrprot1, Half::Low) => Cell::Wrprot1l,
            (Group::Wrprot1, Half::High) => Cell::Wrprot1h,
            (Group::Wrprot2, _) => Cell::Wrprot2l,
        }
    }

    /// The factory value of a half of the group.
    pub open spec fn factory(self, half: Half) -> u16 {
        match (self, half) {
            (Group::Optr, Half::Low) => 0x00aa,
            (Group::Optr, Half::High) => 0x8070,
            _ => 0,
        }
    }

    /// Whether the raw word `word`, read from a half of the group, is
    /// anything but the valid encoding of the factory value.
    pub open spec fn differs(self, half: Half, word: u32) -> bool {
        decode(word) != Some(self.factory(half))
    }

    /// The erase cycle on a half of the group.
    pub open spec fn erasure(self, half: Half) -> Cycle {
        Cycle { cell: self.cell(half), word: 0, erasing: true, stage: Stage::Mode, fault: false }
    }

    /// The cycle that writes the factory value to a half of the group.
    pub open spec fn rewrite(self, half: Half) -> Cycle {
        Cycle {
            cell: self.cell(half),
            word: encode(self.factory(half)),
            erasing: false,
            stage: Stage::Pulse,
            fault: false,
        }
    }

    /// Whether the group has a cell for the upper half.
    pub fn is_paired(self) -> (r: bool)
        ensures
            r == self.paired(),
    {
        match self {
            Group::Wrprot2 => false,
            _ => true,
        }
    }

    /// The factory value of a half of the group.
    pub fn factory_value(self, half: Half) -> (r: u16)
        ensures
            r == self.factory(half),
    {
        match (self, half) {
            (Group::Optr, Half::Low) => OB::OPTRL_RESET_VALUE,
            (Group::Optr, Half::High) => OB::OPTRH_RESET_VALUE,
            (Group::Wrprot1, Half::Low) => OB::WRPROT1L_RESET_VALUE,
            (Group::Wrprot1, Half::High) => OB::WRPROT1H_RESET_VALUE,
            (Group::Wrprot2, _) => OB::WRPROT2_RESET_VALUE,
        }
    }

    /// The request that reads a half of the group.
    fn read(self, half: Half) -> (r: Action)
        ensures
            r == Action::ReadCell(self.cell(half)),
    {
        let regs: RegisterBlock = RegisterBlock::new();
        proof {
            RegisterBlock::lemma_layout();
        }
        match (self, half) {
            (Group::Optr, Half::Low) => regs.optrl.read(),
            (Group::Optr, Half::High) => regs.optrh.read(),
            (Group::Wrprot1, Half::Low) => regs.wrprot1l.read(),
            (Group::Wrprot1, Half::High) => regs.wrprot1h.read(),
            (Group::Wrprot2, _) => regs.wrprot2l.read(),
        }
    }

    /// Whether a raw word read from a half of the group calls for a rewrite.
    fn needs_rewrite(self, half: Half, word: u32) -> (r: bool)
        ensures
            r == self.differs(half, word),
    {
        let regs: RegisterBlock = RegisterBlock::new();
        let found: Option<u16> = match (self, half) {
            (Group::Optr, Half::Low) => regs.optrl.read_u16(word),
            (Group::Optr, Half::High) => regs.optrh.read_u16(word),
            (Group::Wrprot1, Half::Low) => regs.wrprot1l.read_u16(word),
            (Group::Wrprot1, Half::High) => regs.wrprot1h.read_u16(word),
            (Group::Wrprot2, _) => regs.wrprot2l.read_u16(word),
        };
        match found {
            Some(value) => value != self.factory_value(half),
            None => true,
        }
    }

    /// The erase cycle on a half of the group.
    fn erase(self, half: Half) -> (r: Cycle)
        ensures
            r == self.erasure(half),
    {
        let regs: RegisterBlock = RegisterBlock::new();
        proof {
            RegisterBlock::lemma_layout();
        }
        match (self, half) {
            (Group::Optr, Half::Low) => regs.optrl.erase(),
            (Group::Optr, Half::High) => regs.optrh.erase(),
            (Group::Wrprot1, Half::Low) => regs.wrprot1l.erase(),
            (Group::Wrprot1, Half::High) => regs.wrprot1h.erase(),
            (Group::Wrprot2, _) => regs.wrprot2l.erase(),
        }
    }

    /// The cycle that writes the factory value to a half of the group.
    fn write_factory(self, half: Half) -> (r: Cycle)
        ensures
            r == self.rewrite(half),
    {
        let regs: RegisterBlock = RegisterBlock::new();
        let value: u16 = self.factory_value(half);
        proof {
            RegisterBlock::lemma_layout();
        }
        match (self, half) {
            (Group::Optr, Half::Low) => regs.optrl.write_u16(value),
            (Group::Optr, Half::High) => regs.optrh.write_u16(value),
            (Group::Wrprot1, Half::Low) => regs.wrprot1l.write_u16(value),
            (Group::Wrprot1, Half::High) => regs.wrprot1h.write_u16(value),
            (Group::Wrprot2, _) => regs.wrprot2l.write_u16(value),
        }
    }
}

/// Where a reset operation stands. Each phase but the last waits on one
/// request.
#[derive(Clone, Copy, PartialEq, Eq, Structural, Debug)]
pub enum Phase {
    /// The lower cell is read.
    ReadLow,
    /// The upper cell is read.
    ReadHigh,
    /// The interrupt-free section is entered.
    Mask,
    /// The controller is polled until it is no longer busy.
    Idle,
    /// The general lock is looked at.
    GeneralCheck,
    /// The first key word of the general lock is written.
    GeneralKey1,
    /// The second key word of the general lock is written.
    GeneralKey2,
    /// The region lock is looked at.
    RegionCheck,
    /// The first key word of the region lock is written.
    RegionKey1,
    /// The second key word of the region lock is written.
    RegionKey2,
    /// A cell is erased or written.
    Program { half: Half, cycle: Cycle },
    /// The region lock is closed again.
    RegionRelock,
    /// The general lock is closed again.
    GeneralRelock,
    /// The interrupt-free section is left.
    Unmask,
    /// The operation is over.
    Done,
}

/// A reset operation in progress.
#[derive(Clone, Copy, PartialEq, Eq, Structural, Debug)]
pub struct Reset {
    /// The group that is reset.
    pub group: Group,
    /// Where the operation stands.
    pub phase: Phase,
    /// Whether the lower cell was found to differ from its factory value.
    pub low_stale: bool,
    /// Whether the upper cell was found to differ from its factory value.
    pub high_stale: bool,
    /// Whether this operation opened the general lock.
    pub opened_general: bool,
    /// Whether this operation opened the region lock.
    pub opened_region: bool,
    /// Whether a cycle ended without completion.
    pub fault: bool,
}

impl Reset {
    /// The operation on `group` before its first request.
    pub open spec fn start(group: Group) -> Reset {
        Reset {
            group,
            phase: Phase::ReadLow,
            low_stale: false,
            high_stale: false,
            opened_general: false,
            opened_region: false,
            fault: false,
        }
    }

    /// Whether a half was found to differ from its factory value.
    pub open spec fn stale(self, half: Half) -> bool {
        match half {
            Half::Low => self.low_stale,
            Half::High => self.high_stale,
        }
    }

    /// Whether the fields of the operation agree with its phase.
    pub open spec fn wf(self) -> bool {
        &&& self.high_stale ==> self.group.paired()
        &&& self.phase is ReadLow ==> self == Self::start(self.group)
        &&& self.phase is ReadHigh ==> self.group.paired() && self == (Reset {
            phase: Phase::ReadHigh,
            low_stale: self.low_stale,
            ..Self::start(self.group)
        })
        &&& self.phase !is ReadLow && self.phase !is ReadHigh && self.phase !is Done ==> (
        self.low_stale || self.high_stale)
        &&& (self.opened_general || self.opened_region || self.fault) ==> (self.low_stale
            || self.high_stale)
        &&& self.fault ==> (self.phase is RegionRelock || self.phase is GeneralRelock
            || self.phase is Unmask || self.phase is Done)
        &&& self.opened_region ==> !(self.phase is Mask || self.phase is Idle
            || self.phase is GeneralCheck || self.phase is GeneralKey1
            || self.phase is GeneralKey2 || self.phase is RegionCheck)
        &&& self.opened_general ==> !(self.phase is Mask || self.phase is Idle
            || self.phase is GeneralCheck)
        &&& (self.phase is GeneralKey1 || self.phase is GeneralKey2 || self.phase is GeneralRelock)
            ==> self.opened_general
        &&& (self.phase is RegionKey1 || self.phase is RegionKey2 || self.phase is RegionRelock)
            ==> self.opened_region
        &&& self.phase matches Phase::Program { half, cycle } ==> {
            &&& self.stale(half)
            &&& cycle.stage != Stage::Ended
            &&& cycle.fault ==> cycle.erasing && cycle.stage == Stage::Leave
            &&& cycle.erasing ==> cycle == (Cycle {
                stage: cycle.stage,
                fault: cycle.fault,
                ..self.group.erasure(half)
            })
            &&& !cycle.erasing ==> cycle == (Cycle {
                stage: cycle.stage,
                ..self.group.rewrite(half)
            }) && cycle.stage != Stage::Mode && cycle.stage != Stage::Leave
        }
    }

    /// The request that the operation waits on, if it is not over.
    pub open spec fn pending(self) -> Option<Action> {
        match self.phase {
            Phase::ReadLow => Some(Action::ReadCell(self.group.cell(Half::Low))),
            Phase::ReadHigh => Some(Action::ReadCell(self.group.cell(Half::High))),
            Phase::Mask => Some(Action::Mask),
            Phase::Idle => Some(Action::ReadBusy),
            Phase::GeneralCheck => Some(Action::ReadLock(Lock::General)),
            Phase::GeneralKey1 => Some(Action::WriteKey(Lock::General, PEKEY1)),
            Phase::GeneralKey2 => Some(Action::WriteKey(Lock::General, PEKEY2)),
            Phase::RegionCheck => Some(Action::ReadLock(Lock::Region)),
            Phase::RegionKey1 => Some(Action::WriteKey(Lock::Region, OPTKEY1)),
            Phase::RegionKey2 => Some(Action::WriteKey(Lock::Region, OPTKEY2)),
            Phase::Program { half, cycle } => cycle.pending(),
            Phase::RegionRelock => Some(Action::SetLock(Lock::Region)),
            Phase::GeneralRelock => Some(Action::SetLock(Lock::General)),
            Phase::Unmask => Some(Action::Unmask),
            Phase::Done => None,
        }
    }

    /// What the operation came to, once it is over.
    pub open spec fn result(self) -> Option<Result<(), Fault>> {
        if self.phase !is Done {
            None
        } else if self.fault {
            Some(Err(Fault))
        } else {
            Some(Ok(()))
        }
    }

    /// The operation once its cells are read: over if none is stale, else
    /// about to enter the interrupt-free section.
    pub open spec fn decided(self) -> Reset {
        if self.low_stale || self.high_stale {
            Reset { phase: Phase::Mask, ..self }
        } else {
            Reset { phase: Phase::Done, ..self }
        }
    }

    /// The operation after the answer to a read of one of its cells.
    pub open spec fn sensed(self, event: Event) -> Reset {
        match (self.phase, event) {
            (Phase::ReadLow, Event::Word(word)) => {
                let seen = Reset { low_stale: self.group.differs(Half::Low, word), ..self };
                if self.group.paired() {
                    Reset { phase: Phase::ReadHigh, ..seen }
                } else {
                    seen.decided()
                }
            },
            (Phase::ReadHigh, Event::Word(word)) => (Reset {
                high_stale: self.group.differs(Half::High, word),
                ..self
            }).decided(),
            _ => self,
        }
    }

    /// The operation at the start of the first cycle on its first stale cell.
    pub open spec fn unlocked(self) -> Reset {
        let half = if self.low_stale {
            Half::Low
        } else {
            Half::High
        };
        Reset { phase: Phase::Program { half, cycle: self.group.erasure(half) }, ..self }
    }

    /// The operation once the programming is over: it closes the region
    /// lock if it opened it, else the general lock if it opened that, else
    /// leaves the interrupt-free section.
    pub open spec fn relocking(self) -> Reset {
        if self.opened_region {
            Reset { phase: Phase::RegionRelock, ..self }
        } else {
            self.region_closed()
        }
    }

    /// The operation once the region lock is as it was found.
    pub open spec fn region_closed(self) -> Reset {
        if self.opened_general {
            Reset { phase: Phase::GeneralRelock, ..self }
        } else {
            Reset { phase: Phase::Unmask, ..self }
        }
    }

    /// The operation after an answer inside the programming of its cells:
    /// each stale cell is erased, then written; the first cycle that ends in
    /// a fault ends the programming.
    pub open spec fn programmed(self, event: Event) -> Reset {
        match self.phase {
            Phase::Program { half, cycle } => {
                let stepped = cycle.next(event);
                if stepped.stage != Stage::Ended {
                    Reset { phase: Phase::Program { half, cycle: stepped }, ..self }
                } else if stepped.fault {
                    (Reset { fault: true, ..self }).relocking()
                } else if stepped.erasing {
                    Reset { phase: Phase::Program { half, cycle: self.group.rewrite(half) }, ..self }
                } else if half == Half::Low && self.high_stale {
                    Reset {
                        phase: Phase::Program {
                            half: Half::High,
                            cycle: self.group.erasure(Half::High),
                        },
                        ..self
                    }
                } else {
                    self.relocking()
                }
            },
            _ => self,
        }
    }

    /// The operation after an answer at the general lock: found closed, it
    /// is opened with its two key words and closed again on the way out.
    pub open spec fn general(self, event: Event) -> Reset {
        match (self.phase, event) {
            (Phase::GeneralCheck, Event::Flag(locked)) => if locked {
                Reset { phase: Phase::GeneralKey1, opened_general: true, ..self }
            } else {
                Reset { phase: Phase::RegionCheck, ..self }
            },
            (Phase::GeneralKey1, Event::Done) => Reset { phase: Phase::GeneralKey2, ..self },
            (Phase::GeneralKey2, Event::Done) => Reset { phase: Phase::RegionCheck, ..self },
            (Phase::GeneralRelock, Event::Done) => Reset { phase: Phase::Unmask, ..self },
            _ => self,
        }
    }

    /// The operation after an answer at the region lock: found closed, it is
    /// opened with its two key words and closed again on the way out.
    pub open spec fn region(self, event: Event) -> Reset {
        match (self.phase, event) {
            (Phase::RegionCheck, Event::Flag(locked)) => if locked {
                Reset { phase: Phase::RegionKey1, opened_region: true, ..self }
            } else {
                self.unlocked()
            },
            (Phase::RegionKey1, Event::Done) => Reset { phase: Phase::RegionKey2, ..self },
            (Phase::RegionKey2, Event::Done) => self.unlocked(),
            (Phase::RegionRelock, Event::Done) => self.region_closed(),
            _ => self,
        }
    }

    /// The operation after an answer at the edge of the interrupt-free
    /// section: once inside, it waits until the controller is no longer busy.
    pub open spec fn section(self, event: Event) -> Reset {
        match (self.phase, event) {
            (Phase::Mask, Event::Done) => Reset { phase: Phase::Idle, ..self },
            (Phase::Idle, Event::Flag(busy)) => if busy {
                self
            } else {
                Reset { phase: Phase::GeneralCheck, ..self }
            },
            (Phase::Unmask, Event::Done) => Reset { phase: Phase::Done, ..self },
            _ => self,
        }
    }

    /// The operation after the answer `event` to its pending request. An
    /// answer of the wrong kind, or one to an operation that is over,
    /// changes nothing.
    pub open spec fn next(self, event: Event) -> Reset {
        match self.phase {
            Phase::ReadLow | Phase::ReadHigh => self.sensed(event),
            Phase::Mask | Phase::Idle | Phase::Unmask => self.section(event),
            Phase::GeneralCheck | Phase::GeneralKey1 | Phase::GeneralKey2 | Phase::GeneralRelock =>
                self.general(event),
            Phase::RegionCheck | Phase::RegionKey1 | Phase::RegionKey2 | Phase::RegionRelock =>
                self.region(event),
            Phase::Program { .. } => self.programmed(event),
            Phase::Done => self,
        }
    }

    /// The request that the operation waits on, if it is not over.
    pub fn request(&self) -> (r: Option<Action>)
        ensures
            r == self.pending(),
    {
        match self.phase {
            Phase::ReadLow => Some(self.group.read(Half::Low)),
            Phase::ReadHigh => Some(self.group.read(Half::High)),
            Phase::Mask => Some(Action::Mask),
            Phase::Idle => Some(Action::ReadBusy),
            Phase::GeneralCheck => Some(Action::ReadLock(Lock::General)),
            Phase::GeneralKey1 => Some(Action::WriteKey(Lock::General, PEKEY1)),
            Phase::GeneralKey2 => Some(Action::WriteKey(Lock::General, PEKEY2)),
            Phase::RegionCheck => Some(Action::ReadLock(Lock::Region)),
            Phase::RegionKey1 => Some(Action::WriteKey(Lock::Region, OPTKEY1)),
            Phase::RegionKey2 => Some(Action::WriteKey(Lock::Region, OPTKEY2)),
            Phase::Program { half, cycle } => cycle.request(),
            Phase::RegionRelock => Some(Action::SetLock(Lock::Region)),
            Phase::GeneralRelock => Some(Action::SetLock(Lock::General)),
            Phase::Unmask => Some(Action::Unmask),
            Phase::Done => None,
        }
    }

    /// What the operation came to, once it is over.
    pub fn outcome(&self) -> (r: Option<Result<(), Fault>>)
        ensures
            r == self.result(),
            self.wf() ==> (r is None <==> self.pending() is Some),
    {
        match self.phase {
            Phase::Done => if self.fault {
                Some(Err(Fault))
            } else {
                Some(Ok(()))
            },
            _ => None,
        }
    }

    fn decide(self) -> (r: Reset)
        ensures
            r == self.decided(),
    {
        if self.low_stale || self.high_stale {
            Reset { phase: Phase::Mask, ..self }
        } else {
            Reset { phase: Phase::Done, ..self }
        }
    }

    fn sense(self, event: Event) -> (r: Reset)
        ensures
            r == self.sensed(event),
    {
        match (self.phase, event) {
            (Phase::ReadLow, Event::Word(word)) => {
                let seen = Reset { low_stale: self.group.needs_rewrite(Half::Low, word), ..self };
                if self.group.is_paired() {
                    Reset { phase: Phase::ReadHigh, ..seen }
                } else {
                    seen.decide()
                }
            },
            (Phase::ReadHigh, Event::Word(word)) => (Reset {
                high_stale: self.group.needs_rewrite(Half::High, word),
                ..self
            }).decide(),
            _ => self,
        }
    }

    fn unlock(self) -> (r: Reset)
        ensures
            r == self.unlocked(),
    {
        let half: Half = if self.low_stale {
            Half::Low
        } else {
            Half::High
        };
        Reset { phase: Phase::Program { half, cycle: self.group.erase(half) }, ..self }
    }

    fn relock(self) -> (r: Reset)
        ensures
            r == self.relocking(),
    {
        if self.opened_region {
            Reset { phase: Phase::RegionRelock, ..self }
        } else {
            self.close_region()
        }
    }

    fn close_region(self) -> (r: Reset)
        ensures
            r == self.region_closed(),
    {
        if self.opened_general {
            Reset { phase: Phase::GeneralRelock, ..self }
        } else {
            Reset { phase: Phase::Unmask, ..self }
        }
    }

    fn program(self, event: Event) -> (r: Reset)
        ensures
            r == self.programmed(event),
    {
        match self.phase {
            Phase::Program { half, cycle } => {
                let stepped: Cycle = cycle.step(event);
                match stepped.outcome() {
                    None => Reset { phase: Phase::Program { half, cycle: stepped }, ..self },
                    Some(Err(_)) => (Reset { fault: true, ..self }).relock(),
                    Some(Ok(_)) => {
                        if stepped.erasing {
                            Reset {
                                phase: Phase::Program { half, cycle: self.group.write_factory(half) },
                                ..self
                            }
                        } else if matches!(half, Half::Low) && self.high_stale {
                            Reset {
                                phase: Phase::Program {
                                    half: Half::High,
                                    cycle: self.group.erase(Half::High),
                                },
                                ..self
                            }
                        } else {
                            self.relock()
                        }
                    },
                }
            },
            _ => self,
        }
    }

    fn unlock_pecr(self, event: Event) -> (r: Reset)
        ensures
            r == self.general(event),
    {
        match (self.phase, event) {
            (Phase::GeneralCheck, Event::Flag(locked)) => if locked {
                Reset { phase: Phase::GeneralKey1, opened_general: true, ..self }
            } else {
                Reset { phase: Phase::RegionCheck, ..self }
            },
            (Phase::GeneralKey1, Event::Done) => Reset { phase: Phase::GeneralKey2, ..self },
            (Phase::GeneralKey2, Event::Done) => Reset { phase: Phase::RegionCheck, ..self },
            (Phase::GeneralRelock, Event::Done) => Reset { phase: Phase::Unmask, ..self },
            _ => self,
        }
    }

    fn unlock_optr(self, event: Event) -> (r: Reset)
        ensures
            r == self.region(event),
    {
        match (self.phase, event) {
            (Phase::RegionCheck, Event::Flag(locked)) => if locked {
                Reset { phase: Phase::RegionKey1, opened_region: true, ..self }
            } else {
                self.unlock()
            },
            (Phase::RegionKey1, Event::Done) => Reset { phase: Phase::RegionKey2, ..self },
            (Phase::RegionKey2, Event::Done) => self.unlock(),
            (Phase::RegionRelock, Event::Done) => self.close_region(),
            _ => self,
        }
    }

    fn modify_option_byte(self, event: Event) -> (r: Reset)
        ensures
            r == self.section(event),
    {
        match (self.phase, event) {
            (Phase::Mask, Event::Done) => Reset { phase: Phase::Idle, ..self },
            (Phase::Idle, Event::Flag(busy)) => if busy {
                self
            } else {
                Reset { phase: Phase::GeneralCheck, ..self }
            },
            (Phase::Unmask, Event::Done) => Reset { phase: Phase::Done, ..self },
            _ => self,
        }
    }

    /// Takes the operation one answer further.
    pub fn step(self, event: Event) -> (r: Reset)
        ensures
            r == self.next(event),
            r.group == self.group,
            self.wf() ==> r.wf(),
            self.pending() matches Some(action) && !answers(action, event) ==> r == self,
            self.result() is Some ==> r == self,
    {
        match self.phase {
            Phase::ReadLow | Phase::ReadHigh => self.sense(event),
            Phase::Mask | Phase::Idle | Phase::Unmask => self.modify_option_byte(event),
            Phase::GeneralCheck | Phase::GeneralKey1 | Phase::GeneralKey2 | Phase::GeneralRelock =>
                self.unlock_pecr(event),
            Phase::RegionCheck | Phase::RegionKey1 | Phase::RegionKey2 | Phase::RegionRelock =>
                self.unlock_optr(event),
            Phase::Program { .. } => self.program(event),
            Phase::Done => self,
        }
    }
}

/// High-level option bytes interface.
pub struct OB {
    inner: pac::OB,
}

impl OB {
    /// Factory value of the OPTR register.
    pub const OPTR_RESET_VALUE: u32 = 0x8070_00aa;

    const OPTRL_RESET_VALUE: u16 = 0x00aa;

    const OPTRH_RESET_VALUE: u16 = 0x8070;

    /// Factory value of the WRPROT1 register.
    pub const WRPROT1_RESET_VALUE: u32 = 0x0000_0000;

    const WRPROT1L_RESET_VALUE: u16 = 0;

    const WRPROT1H_RESET_VALUE: u16 = 0;

    /// Factory value of the WRPROT2 register.
    pub const WRPROT2_RESET_VALUE: u16 = 0;

    /// The low-level interface that this one stands on.
    pub closed spec fn inner(&self) -> pac::OB {
        self.inner
    }

    /// The high-level interface on top of the low-level one.
    pub fn new(ob: pac::OB) -> (r: Self)
        ensures
            r.inner() == ob,
    {
        Self { inner: ob }
    }

    /// The operation that resets the boot-option word.
    pub fn reset_optr(&self) -> (r: Reset)
        ensures
            r == Reset::start(Group::Optr),
            r.wf(),
    {
        Reset {
            group: Group::Optr,
            phase: Phase::ReadLow,
            low_stale: false,
            high_stale: false,
            opened_general: false,
            opened_region: false,
            fault: false,
        }
    }

    /// The operation that resets the first write-protection word.
    pub fn reset_wrprot1(&self) -> (r: Reset)
        ensures
            r == Reset::start(Group::Wrprot1),
            r.wf(),
    {
        Reset {
            group: Group::Wrprot1,
            phase: Phase::ReadLow,
            low_stale: false,
            high_stale: false,
            opened_general: false,
            opened_region: false,
            fault: false,
        }
    }

    /// The operation that resets the second write-protection word.
    pub fn reset_wrprot2(&self) -> (r: Reset)
        ensures
            r == Reset::start(Group::Wrprot2),
            r.wf(),
    {
        Reset {
            group: Group::Wrprot2,
            phase: Phase::ReadLow,
            low_stale: false,
            high_stale: false,
            opened_general: false,
            opened_region: false,
            fault: false,
        }
    }
}

/// The factory values of the halves of a group are the halves of the factory
/// value of its register.
pub proof fn lemma_factory_halves()
    ensures
        Group::Optr.factory(Half::Low) == OB::OPTR_RESET_VALUE & 0xffff,
        Group::Optr.factory(Half::High) == OB::OPTR_RESET_VALUE >> 16,
        Group::Wrprot1.factory(Half::Low) == OB::WRPROT1_RESET_VALUE & 0xffff,
        Group::Wrprot1.factory(Half::High) == OB::WRPROT1_RESET_VALUE >> 16,
        Group::Wrprot2.factory(Half::Low) == OB::WRPROT2_RESET_VALUE,
{
    assert(0x8070_00aau32 & 0xffff == 0x00aa) by (bit_vector);
    assert(0x8070_00aau32 >> 16 == 0x8070) by (bit_vector);
    assert(0u32 & 0xffff == 0) by (bit_vector);
    assert(0u32 >> 16 == 0) by (bit_vector);
}

} // verus!

//! A reference model of the flash controller and of the configuration cells.
//!
//! `State` says how the hardware is taken to behave: how the locks open and
//! close, when a write to a cell is accepted, and what it does to the cell.
//! `Device` is the same model in executable form, with a record of the key
//! words and the cell writes it has seen.

use vstd::prelude::*;
use crate::bus::{Action, Cell, Event, Lock};
use crate::ob::{OPTKEY1, OPTKEY2, PEKEY1, PEKEY2};

verus! {

/// The raw word of an erased cell. A write can only clear bits of a cell, so
/// a cell takes a written word as it is only when it was erased before.
pub const ERASED: u32 = 0xffff_ffff;

/// A word written to the key register of a lock.
#[derive(Clone, Copy, PartialEq, Eq, Structural, Debug)]
pub struct KeyWrite {
    pub lock: Lock,
    pub word: u32,
}

/// A raw word written to a cell, with the erase-mode bit as it stood.
#[derive(Clone, Copy, PartialEq, Eq, Structural, Debug)]
pub struct Pulse {
    pub cell: Cell,
    pub word: u32,
    pub erase: bool,
}

/// The raw words of the five cells.
#[derive(Clone, Copy, PartialEq, Eq, Structural, Debug)]
pub struct Cells {
    pub optrl: u32,
    pub optrh: u32,
    pub wrprot1l: u32,
    pub wrprot1h: u32,
    pub wrprot2l: u32,
}

impl Cells {
    /// The raw word of a cell.
    pub open spec fn get(self, cell: Cell) -> u32 {
        match cell {
            Cell::Optrl => self.optrl,
            Cell::Optrh => self.optrh,
            Cell::Wrprot1l => self.wrprot1l,
            Cell::Wrprot1h => self.wrprot1h,
            Cell::Wrprot2l => self.wrprot2l,
        }
    }

    /// The cells with the raw word of one of them replaced.
    pub open spec fn set(self, cell: Cell, word: u32) -> Cells {
        match cell {
            Cell::Optrl => Cells { optrl: word, ..self },
            Cell::Optrh => Cells { optrh: word, ..self },
            Cell::Wrprot1l => Cells { wrprot1l: word, ..self },
            Cell::Wrprot1h => Cells { wrprot1h: word, ..self },
            Cell::Wrprot2l => Cells { wrprot2l: word, ..self },
        }
    }

    /// The raw word of a cell.
    pub fn read(&self, cell: Cell) -> (r: u32)
        ensures
            r == self.get(cell),
    {
        match cell {
            Cell::Optrl => self.optrl,
            Cell::Optrh => self.optrh,
            Cell::Wrprot1l => self.wrprot1l,
            Cell::Wrprot1h => self.wrprot1h,
            Cell::Wrprot2l => self.wrprot2l,
        }
    }

    /// Replaces the raw word of a cell.
    pub fn write(&mut self, cell: Cell, word: u32)
        ensures
            *final(self) == old(self).set(cell, word),
    {
        match cell {
            Cell::Optrl => self.optrl = word,
            Cell::Optrh => self.optrh = word,
            Cell::Wrprot1l => self.wrprot1l = word,
            Cell::Wrprot1h => self.wrprot1h = word,
            Cell::Wrprot2l => self.wrprot2l = word,
        }
    }
}

/// The state of the modelled hardware.
pub struct State {
    /// The raw words of the cells.
    pub cells: Cells,
    /// Whether the general lock is closed.
    pub general_locked: bool,
    /// Whether the region lock is closed.
    pub region_locked: bool,
    /// Whether the first key word of the general lock has been taken.
    pub general_primed: bool,
    /// Whether the first key word of the region lock has been taken.
    pub region_primed: bool,
    /// The erase-mode bit.
    pub erase: bool,
    /// The completion-event flag.
    pub eop: bool,
    /// The number of reads of the busy flag that will still find it set.
    pub busy: u32,
    /// The value that `busy` takes when a write to a cell is accepted.
    pub latency: u32,
    /// The number of writes to a cell that the controller will still accept;
    /// `None` where it accepts them without end.
    pub budget: Option<u32>,
    /// Whether interrupts are disabled.
    pub masked: bool,
    /// Whether interrupts were disabled when the interrupt-free section was
    /// entered last.
    pub saved: bool,
    /// Whether the controller was ever accessed with interrupts enabled.
    pub breach: bool,
    /// The words written to the key registers, oldest first.
    pub keys: Seq<KeyWrite>,
    /// The words written to the cells, oldest first.
    pub pulses: Seq<Pulse>,
}

impl State {
    /// The controller at rest: no operation or key sequence under way, no
    /// completion event left uncleared, and the region lock open only if the
    /// general lock is.
    pub open spec fn rest(self) -> bool {
        &&& !self.erase
        &&& !self.eop
        &&& !self.general_primed
        &&& !self.region_primed
        &&& self.general_locked ==> self.region_locked
    }

    /// Whether a write to a cell is accepted: both locks are open, the
    /// controller is not busy, and it has not run out of writes.
    pub open spec fn accepts(self) -> bool {
        &&& !self.general_locked
        &&& !self.region_locked
        &&& self.busy == 0
        &&& self.budget != Some(0u32)
    }

    /// The budget after one accepted write.
    pub open spec fn spent(self) -> Option<u32> {
        match self.budget {
            Some(n) => Some((n - 1) as u32),
            None => None,
        }
    }

    /// The state after a word is written to the key register of a lock. The
    /// general lock opens on its two key words in order; the region lock
    /// opens on its own two, and only while the general lock is open. A word
    /// out of order starts the sequence over.
    pub open spec fn keyed(self, lock: Lock, word: u32) -> State {
        let logged = State { keys: self.keys.push(KeyWrite { lock, word }), ..self };
        match lock {
            Lock::General => if !self.general_locked {
                logged
            } else if !self.general_primed {
                State { general_primed: word == PEKEY1, ..logged }
            } else if word == PEKEY2 {
                State { general_locked: false, general_primed: false, ..logged }
            } else {
                State { general_primed: false, ..logged }
            },
            Lock::Region => if self.general_locked || !self.region_locked {
                logged
            } else if !self.region_primed {
                State { region_primed: word == OPTKEY1, ..logged }
            } else if word == OPTKEY2 {
                State { region_locked: false, region_primed: false, ..logged }
            } else {
                State { region_primed: false, ..logged }
            },
        }
    }

    /// The state after a lock is closed. Closing the general lock closes the
    /// region lock with it.
    pub open spec fn locked(self, lock: Lock) -> State {
        match lock {
            Lock::General => State {
                general_locked: true,
                region_locked: true,
                general_primed: false,
                region_primed: false,
                ..self
            },
            Lock::Region => State { region_locked: true, region_primed: false, ..self },
        }
    }

    /// The state after a raw word is written to a cell. An accepted write
    /// erases the cell in erase mode and clears the bits that the word lacks
    /// otherwise, raises the completion event and keeps the controller busy
    /// for a while. A write that is not accepted leaves all that as it was.
    pub open spec fn pulsed(self, cell: Cell, word: u32) -> State {
        let logged = State {
            pulses: self.pulses.push(Pulse { cell, word, erase: self.erase }),
            ..self
        };
        if self.accepts() {
            State {
                cells: self.cells.set(
                    cell,
                    if self.erase {
                        ERASED
                    } else {
                        self.cells.get(cell) & word
                    },
                ),
                eop: true,
                busy: self.latency,
                budget: self.spent(),
                ..logged
            }
        } else {
            logged
        }
    }

    /// Whether a request reaches the flash controller.
    pub open spec fn touches(action: Action) -> bool {
        !(action is ReadCell || action is Mask || action is Unmask)
    }

    /// The state after a request is performed.
    pub open spec fn after(self, action: Action) -> State {
        let seen = State {
            breach: self.breach || (Self::touches(action) && !self.masked),
            ..self
        };
        match action {
            Action::ReadCell(_) | Action::ReadEop | Action::ReadLock(_) => seen,
            Action::WriteCell(cell, word) => seen.pulsed(cell, word),
            Action::ReadBusy => if self.busy > 0 {
                State { busy: (self.busy - 1) as u32, ..seen }
            } else {
                seen
            },
            Action::ClearEop => State { eop: false, ..seen },
            Action::WriteKey(lock, word) => seen.keyed(lock, word),
            Action::SetLock(lock) => seen.locked(lock),
            Action::SetErase => State { erase: true, ..seen },
            Action::ClearErase => State { erase: false, ..seen },
            Action::Mask => State { masked: true, saved: self.masked, ..seen },
            Action::Unmask => State { masked: self.saved, ..seen },
        }
    }

    /// The answer to a request.
    pub open spec fn answer(self, action: Action) -> Event {
        match action {
            Action::ReadCell(cell) => Event::Word(self.cells.get(cell)),
            Action::ReadBusy => Event::Flag(self.busy > 0),
            Action::ReadEop => Event::Flag(self.eop),
            Action::ReadLock(Lock::General) => Event::Flag(self.general_locked),
            Action::ReadLock(Lock::Region) => Event::Flag(self.region_locked),
            _ => Event::Done,
        }
    }
}

/// The model in executable form.
pub struct Device {
    cells: Cells,
    general_locked: bool,
    region_locked: bool,
    general_primed: bool,
    region_primed: bool,
    erase: bool,
    eop: bool,
    busy: u32,
    latency: u32,
    budget: Option<u32>,
    masked: bool,
    saved: bool,
    breach: bool,
    keys: Vec<KeyWrite>,
    pulses: Vec<Pulse>,
}

impl View for Device {
    type V = State;

    closed spec fn view(&self) -> State {
        State {
            cells: self.cells,
            general_locked: self.general_locked,
            region_locked: self.region_locked,
            general_primed: self.general_primed,
            region_primed: self.region_primed,
            erase: self.erase,
            eop: self.eop,
            busy: self.busy,
            latency: self.latency,
            budget: self.budget,
            masked: self.masked,
            saved: self.saved,
            breach: self.breach,
            keys: self.keys@,
            pulses: self.pulses@,
        }
    }
}

impl Device {
    /// The state of a device that holds `cells` and has seen no request: both
    /// locks closed, at rest, interrupts enabled.
    pub open spec fn fresh(cells: Cells, latency: u32, budget: Option<u32>) -> State {
        State {
            cells,
            general_locked: true,
            region_locked: true,
            general_primed: false,
            region_primed: false,
            erase: false,
            eop: false,
            busy: 0,
            latency,
            budget,
            masked: false,
            saved: false,
            breach: false,
            keys: Seq::empty(),
            pulses: Seq::empty(),
        }
    }

    /// A device that holds `cells`, with both locks closed. After each
    /// accepted write to a cell it is busy for `latency` reads of the busy
    /// flag; it accepts `budget` such writes, or any number where `budget`
    /// is `None`.
    pub fn new(cells: Cells, latency: u32, budget: Option<u32>) -> (r: Device)
        ensures
            r@ == Self::fresh(cells, latency, budget),
            r@.rest(),
    {
        Device {
            cells,
            general_locked: true,
            region_locked: true,
            general_primed: false,
            region_primed: false,
            erase: false,
            eop: false,
            busy: 0,
            latency,
            budget,
            masked: false,
            saved: false,
            breach: false,
            keys: Vec::new(),
            pulses: Vec::new(),
        }
    }

    /// The raw word of a cell.
    pub fn word(&self, cell: Cell) -> (r: u32)
        ensures
            r == self@.cells.get(cell),
    {
        self.cells.read(cell)
    }

    /// The raw words of the cells.
    pub fn cells(&self) -> (r: Cells)
        ensures
            r == self@.cells,
    {
        self.cells
    }

    /// Whether a lock is closed.
    pub fn is_locked(&self, lock: Lock) -> (r: bool)
        ensures
            r == match lock {
                Lock::General => self@.general_locked,
                Lock::Region => self@.region_locked,
            },
    {
        match lock {
            Lock::General => self.general_locked,
            Lock::Region => self.region_locked,
        }
    }

    /// Whether the completion-event flag is set.
    pub fn raised(&self) -> (r: bool)
        ensures
            r == self@.eop,
    {
        self.eop
    }

    /// Whether interrupts are disabled.
    pub fn is_masked(&self) -> (r: bool)
        ensures
            r == self@.masked,
    {
        self.masked
    }

    /// Whether the controller was ever accessed with interrupts enabled.
    pub fn breached(&self) -> (r: bool)
        ensures
            r == self@.breach,
    {
        self.breach
    }

    /// Whether the controller is at rest.
    pub fn at_rest(&self) -> (r: bool)
        ensures
            r == self@.rest(),
    {
        !self.erase && !self.eop && !self.general_primed && !self.region_primed && (
        !self.general_locked || self.region_locked)
    }

    /// The number of writes to a cell that the controller will still accept.
    pub fn budget(&self) -> (r: Option<u32>)
        ensures
            r == self@.budget,
    {
        self.budget
    }

    /// The words written to the key registers, oldest first.
    pub fn keys(&self) -> (r: &Vec<KeyWrite>)
        ensures
            r@ == self@.keys,
    {
        &self.keys
    }

    /// The words written to the cells, oldest first.
    pub fn pulses(&self) -> (r: &Vec<Pulse>)
        ensures
            r@ == self@.pulses,
    {
        &self.pulses
    }

    fn write_key(&mut self, lock: Lock, word: u32)
        ensures
            final(self)@ == old(self)@.keyed(lock, word),
    {
        self.keys.push(KeyWrite { lock, word });
        match lock {
            Lock::General => if !self.general_locked {
            } else if !self.general_primed {
                self.general_primed = word == PEKEY1;
            } else if word == PEKEY2 {
                self.general_locked = false;
                self.general_primed = false;
            } else {
                self.general_primed = false;
            },
            Lock::Region => if self.general_locked || !self.region_locked {
            } else if !self.region_primed {
                self.region_primed = word == OPTKEY1;
            } else if word == OPTKEY2 {
                self.region_locked = false;
                self.region_primed = false;
            } else {
                self.region_primed = false;
            },
        }
    }

    fn set_lock(&mut self, lock: Lock)
        ensures
            final(self)@ == old(self)@.locked(lock),
    {
        match lock {
            Lock::General => {
                self.general_locked = true;
                self.region_locked = true;
                self.general_primed = false;
                self.region_primed = false;
            },
            Lock::Region => {
                self.region_locked = true;
                self.region_primed = false;
            },
        }
    }

    fn write_cell(&mut self, cell: Cell, word: u32)
        ensures
            final(self)@ == old(self)@.pulsed(cell, word),
    {
        self.pulses.push(Pulse { cell, word, erase: self.erase });
        let spent: Option<u32> = match self.budget {
            Some(n) => if n == 0 {
                return ;
            } else {
                Some(n - 1)
            },
            None => None,
        };
        if !self.general_locked && !self.region_locked && self.busy == 0 {
            let stored: u32 = if self.erase {
                ERASED
            } else {
                self.cells.read(cell) & word
            };
            self.cells.write(cell, stored);
            self.eop = true;
            self.busy = self.latency;
            self.budget = spent;
        }
    }

    fn note(&mut self, action: Action)
        ensures
            final(self)@ == (State {
                breach: old(self)@.breach || (State::touches(action) && !old(self)@.masked),
                ..old(self)@
            }),
    {
        let touches: bool = match action {
            Action::ReadCell(_) | Action::Mask | Action::Unmask => false,
            _ => true,
        };
        self.breach = self.breach || (touches && !self.masked);
    }

    fn poll(&mut self) -> (r: bool)
        ensures
            r == (old(self)@.busy > 0),
            final(self)@ == if old(self)@.busy > 0 {
                State { busy: (old(self)@.busy - 1) as u32, ..old(self)@ }
            } else {
                old(self)@
            },
    {
        if self.busy > 0 {
            self.busy = self.busy - 1;
            true
        } else {
            false
        }
    }

    fn set_eop(&mut self, eop: bool)
        ensures
            final(self)@ == (State { eop, ..old(self)@ }),
    {
        self.eop = eop;
    }

    fn set_erase(&mut self, erase: bool)
        ensures
            final(self)@ == (State { erase, ..old(self)@ }),
    {
        self.erase = erase;
    }

    fn mask(&mut self)
        ensures
            final(self)@ == (State { masked: true, saved: old(self)@.masked, ..old(self)@ }),
    {
        self.saved = self.masked;
        self.masked = true;
    }

    fn unmask(&mut self)
        ensures
            final(self)@ == (State { masked: old(self)@.saved, ..old(self)@ }),
    {
        self.masked = self.saved;
    }

    /// Performs a request and answers it.
    pub fn perform(&mut self, action: Action) -> (r: Event)
        ensures
            final(self)@ == old(self)@.after(action),
            r == old(self)@.answer(action),
    {
        self.note(action);
        match action {
            Action::ReadCell(cell) => Event::Word(self.word(cell)),
            Action::WriteCell(cell, word) => {
                self.write_cell(cell, word);
                Event::Done
            },
            Action::ReadBusy => Event::Flag(self.poll()),
            Action::ReadEop => Event::Flag(self.raised()),
            Action::ClearEop => {
                self.set_eop(false);
                Event::Done
            },
            Action::ReadLock(lock) => Event::Flag(self.is_locked(lock)),
            Action::WriteKey(lock, word) => {
                self.write_key(lock, word);
                Event::Done
            },
            Action::SetLock(lock) => {
                self.set_lock(lock);
                Event::Done
            },
            Action::SetErase => {
                self.set_erase(true);
                Event::Done
            },
            Action::ClearErase => {
                self.set_erase(false);
                Event::Done
            },
            Action::Mask => {
                self.mask();
                Event::Done
            },
            Action::Unmask => {
                self.unmask();
                Event::Done
            },
        }
    }
}

} // verus!

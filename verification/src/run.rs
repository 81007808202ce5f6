//! A reset operation run to its end against the model, and what it leaves.
//!
//! `State::settled` and `State::verdict` say in closed form what a complete
//! reset operation makes of a controller at rest. `Device::reset` drives the
//! engine against the model request by request and is proved to arrive
//! there.

use vstd::prelude::*;
use crate::bus::{Event, Fault, Lock};
use crate::device::{Cells, Device, KeyWrite, Pulse, State, ERASED};
use crate::ob::{Group, Half, Phase, Reset, OB, OPTKEY1, OPTKEY2, PEKEY1, PEKEY2};
use crate::pac;
use crate::pac::ob::{encode, Cycle, Stage};

verus! {

/// The number of cell writes that a reset issues when all complete: an
/// erase and a write for each stale half.
pub open spec fn total(low_stale: bool, high_stale: bool) -> nat {
    ((if low_stale { 2nat } else { 0nat }) + (if high_stale { 2nat } else { 0nat })) as nat
}

/// The cell write of rank `i` among those that a reset issues: for each
/// stale half, the lower first, the erase and then the factory value.
pub open spec fn planned(group: Group, low_stale: bool, i: nat) -> Pulse {
    let half = if low_stale && i < 2 {
        Half::Low
    } else {
        Half::High
    };
    if i % 2 == 0 {
        Pulse { cell: group.cell(half), word: 0, erase: true }
    } else {
        Pulse { cell: group.cell(half), word: encode(group.factory(half)), erase: false }
    }
}

/// The record of cell writes `base` after the first `k` planned ones.
pub open spec fn logged(base: Seq<Pulse>, group: Group, low_stale: bool, k: nat) -> Seq<Pulse> {
    let s1 = if k >= 1 { base.push(planned(group, low_stale, 0)) } else { base };
    let s2 = if k >= 2 { s1.push(planned(group, low_stale, 1)) } else { s1 };
    let s3 = if k >= 3 { s2.push(planned(group, low_stale, 2)) } else { s2 };
    if k >= 4 { s3.push(planned(group, low_stale, 3)) } else { s3 }
}

/// The record of key words `base` after the first `general` key words of the
/// general lock and the first `region` key words of the region lock.
pub open spec fn unlocked(base: Seq<KeyWrite>, general: nat, region: nat) -> Seq<KeyWrite> {
    let s1 = if general >= 1 { base.push(KeyWrite { lock: Lock::General, word: PEKEY1 }) } else { base };
    let s2 = if general >= 2 { s1.push(KeyWrite { lock: Lock::General, word: PEKEY2 }) } else { s1 };
    let s3 = if region >= 1 { s2.push(KeyWrite { lock: Lock::Region, word: OPTKEY1 }) } else { s2 };
    if region >= 2 { s3.push(KeyWrite { lock: Lock::Region, word: OPTKEY2 }) } else { s3 }
}

/// The raw word of a cell after `done` of its two cycles have completed.
pub open spec fn stored(found: u32, factory: u16, done: nat) -> u32 {
    if done == 0 {
        found
    } else if done == 1 {
        ERASED
    } else {
        encode(factory)
    }
}

/// How many of the two cycles on a half have completed, once `c` of the
/// planned cell writes have.
pub open spec fn share(half: Half, low_stale: bool, high_stale: bool, c: nat) -> nat {
    let before: nat = if half == Half::High && low_stale { 2 } else { 0 };
    let stale = match half {
        Half::Low => low_stale,
        Half::High => high_stale,
    };
    if !stale || c <= before {
        0
    } else if c == before + 1 {
        1
    } else {
        2
    }
}

/// The cells after `c` of the planned cell writes have completed.
pub open spec fn programmed(
    base: Cells,
    group: Group,
    low_stale: bool,
    high_stale: bool,
    c: nat,
) -> Cells {
    let low = share(Half::Low, low_stale, high_stale, c);
    let high = share(Half::High, low_stale, high_stale, c);
    let a = if low == 0 {
        base
    } else {
        base.set(
            group.cell(Half::Low),
            stored(base.get(group.cell(Half::Low)), group.factory(Half::Low), low),
        )
    };
    if high == 0 {
        a
    } else {
        a.set(
            group.cell(Half::High),
            stored(base.get(group.cell(Half::High)), group.factory(Half::High), high),
        )
    }
}

/// A budget after `c` accepted writes.
pub open spec fn reduced(budget: Option<u32>, c: nat) -> Option<u32> {
    match budget {
        Some(n) => Some((n - c) as u32),
        None => None,
    }
}

/// Whether a budget covers `k` writes.
pub open spec fn covers(budget: Option<u32>, k: nat) -> bool {
    match budget {
        Some(n) => k <= n,
        None => true,
    }
}

impl State {
    /// Whether a half of a group holds anything but the valid encoding of
    /// its factory value.
    pub open spec fn stale(self, group: Group, half: Half) -> bool {
        (half == Half::Low || group.paired()) && group.differs(
            half,
            self.cells.get(group.cell(half)),
        )
    }

    /// The number of cell writes that a reset of the group calls for.
    pub open spec fn needed(self, group: Group) -> nat {
        total(self.stale(group, Half::Low), self.stale(group, Half::High))
    }

    /// What a reset of the group comes to: a fault exactly where the
    /// controller stops accepting writes before the last one that the reset
    /// calls for.
    pub open spec fn verdict(self, group: Group) -> Result<(), Fault> {
        if covers(self.budget, self.needed(group)) {
            Ok(())
        } else {
            Err(Fault)
        }
    }

    /// The state that a reset of the group leaves. Where no cell is stale,
    /// it is the state that the reset found. Else every planned cell write
    /// that the budget covers has completed, one more was issued if the
    /// budget ran out, both locks and the interrupt mask are as they were
    /// found, and the key words of each lock that was found closed are on
    /// record.
    pub open spec fn settled(self, group: Group) -> State {
        let low_stale = self.stale(group, Half::Low);
        let high_stale = self.stale(group, Half::High);
        let needed = self.needed(group);
        if needed == 0 {
            self
        } else {
            let c: nat = match self.budget {
                Some(n) => if n < needed { n as nat } else { needed },
                None => needed,
            };
            let k: nat = if c < needed { c + 1 } else { needed };
            State {
                cells: programmed(self.cells, group, low_stale, high_stale, c),
                general_locked: self.general_locked,
                region_locked: self.region_locked,
                general_primed: false,
                region_primed: false,
                erase: false,
                eop: false,
                busy: 0,
                latency: self.latency,
                budget: reduced(self.budget, c),
                masked: self.masked,
                saved: self.masked,
                breach: self.breach,
                keys: unlocked(
                    self.keys,
                    if self.general_locked { 2 } else { 0 },
                    if self.region_locked { 2 } else { 0 },
                ),
                pulses: logged(self.pulses, group, low_stale, k),
            }
        }
    }
}

/// Whether a cycle has issued its write to the cell.
spec fn pulsed(cycle: Cycle) -> bool {
    cycle.stage != Stage::Mode && cycle.stage != Stage::Pulse
}

/// The number of cell writes that an operation has issued.
spec fn issued(job: Reset, budget: Option<u32>) -> nat {
    match job.phase {
        Phase::Program { half, cycle } => {
            let before: nat = if half == Half::High && job.low_stale { 2 } else { 0 };
            let first: nat = if cycle.erasing { 0 } else { 1 };
            let this: nat = if pulsed(cycle) { 1 } else { 0 };
            before + first + this
        },
        Phase::RegionRelock | Phase::GeneralRelock | Phase::Unmask | Phase::Done => if job.fault {
            match budget {
                Some(n) => (n + 1) as nat,
                None => 0,
            }
        } else {
            total(job.low_stale, job.high_stale)
        },
        _ => 0,
    }
}

/// The number of cell writes of an operation that have completed.
spec fn completed(job: Reset, budget: Option<u32>) -> nat {
    let k = issued(job, budget);
    match budget {
        Some(n) => if k <= n { k } else { n as nat },
        None => k,
    }
}

/// Whether the operation is inside the interrupt-free section.
spec fn inside(job: Reset) -> bool {
    !(job.phase is ReadLow || job.phase is ReadHigh || job.phase is Mask || job.phase is Done)
}

/// Whether the operation has looked at the general lock.
spec fn past_general(job: Reset) -> bool {
    inside(job) && !(job.phase is Idle || job.phase is GeneralCheck)
}

/// Whether the operation has looked at the region lock.
spec fn past_region(job: Reset) -> bool {
    past_general(job) && !(job.phase is GeneralKey1 || job.phase is GeneralKey2
        || job.phase is RegionCheck)
}

/// The state in which an operation that began in `s0` waits on its pending
/// request, but for `busy`, which is as given.
spec fn expected(job: Reset, s0: State, busy: u32) -> State {
    let started = inside(job) || (job.phase is Done && (job.low_stale || job.high_stale));
    let k = issued(job, s0.budget);
    let c = completed(job, s0.budget);
    State {
        cells: programmed(s0.cells, job.group, job.low_stale, job.high_stale, c),
        general_locked: if job.phase is GeneralKey1 || job.phase is GeneralKey2 {
            true
        } else if past_general(job) && !(job.phase is Unmask) {
            false
        } else {
            s0.general_locked
        },
        region_locked: if job.phase is Program || job.phase is RegionRelock {
            false
        } else {
            s0.region_locked
        },
        general_primed: job.phase is GeneralKey2,
        region_primed: job.phase is RegionKey2,
        erase: job.phase matches Phase::Program { half, cycle } && cycle.erasing
            && cycle.stage != Stage::Mode && cycle.stage != Stage::Ended,
        eop: job.phase matches Phase::Program { half, cycle } && (cycle.stage == Stage::Ack || ((
        cycle.stage == Stage::Busy || cycle.stage == Stage::Check) && covers(s0.budget, k))),
        busy,
        latency: s0.latency,
        budget: reduced(s0.budget, c),
        masked: if inside(job) { true } else { s0.masked },
        saved: if started { s0.masked } else { s0.saved },
        breach: s0.breach,
        keys: unlocked(
            s0.keys,
            if job.phase is GeneralKey2 {
                1
            } else if job.opened_general && !(job.phase is GeneralKey1) {
                2
            } else {
                0
            },
            if job.phase is RegionKey2 {
                1
            } else if job.opened_region && !(job.phase is RegionKey1) {
                2
            } else {
                0
            },
        ),
        pulses: logged(s0.pulses, job.group, job.low_stale, k),
    }
}

/// Whether the busy countdown is where the phase of the operation has it.
spec fn calm(job: Reset, s0: State, busy: u32) -> bool {
    match job.phase {
        Phase::ReadLow | Phase::ReadHigh | Phase::Mask => busy == s0.busy,
        Phase::Done => busy == if job.low_stale || job.high_stale { 0 } else { s0.busy },
        Phase::Idle => true,
        Phase::Program { half, cycle } => cycle.stage == Stage::Busy || busy == 0,
        _ => busy == 0,
    }
}

/// Whether what the operation knows of completed writes agrees with the
/// budget that the controller began with.
spec fn bounded(job: Reset, budget: Option<u32>) -> bool {
    let k = issued(job, budget);
    match job.phase {
        Phase::Program { half, cycle } => if cycle.fault {
            budget == Some((k - 1) as u32)
        } else if cycle.stage == Stage::Busy || cycle.stage == Stage::Check {
            covers(budget, (k - 1) as nat)
        } else {
            covers(budget, k)
        },
        _ => if job.fault {
            budget is Some && k <= total(job.low_stale, job.high_stale)
        } else {
            covers(budget, k)
        },
    }
}

/// What holds of an operation that began in the state `s0`, at rest, and of
/// the state `s` in which it waits on its pending request.
spec fn inv(job: Reset, s: State, s0: State) -> bool {
    &&& job.wf()
    &&& !(job.phase is ReadLow) ==> job.low_stale == s0.stale(job.group, Half::Low)
    &&& !(job.phase is ReadLow || job.phase is ReadHigh) ==> job.high_stale == s0.stale(
        job.group,
        Half::High,
    )
    &&& past_general(job) ==> job.opened_general == s0.general_locked
    &&& past_region(job) ==> job.opened_region == s0.region_locked
    &&& job.phase is Done && (job.low_stale || job.high_stale) ==> job.opened_general
        == s0.general_locked && job.opened_region == s0.region_locked
    &&& calm(job, s0, s.busy)
    &&& bounded(job, s0.budget)
    &&& s == expected(job, s0, s.busy)
}

/// How far an operation is from its end: every answer but a set busy flag
/// brings it closer.
spec fn rank(job: Reset) -> nat {
    match job.phase {
        Phase::Done => 0,
        Phase::Unmask => 1,
        Phase::GeneralRelock => 2,
        Phase::RegionRelock => 3,
        Phase::Program { half, cycle } => {
            let stage: nat = match cycle.stage {
                Stage::Ended => 0,
                Stage::Leave => 1,
                Stage::Ack => 2,
                Stage::Check => 3,
                Stage::Busy => 4,
                Stage::Pulse => 5,
                Stage::Mode => 6,
            };
            let part: nat = if cycle.erasing { 7 } else { 0 };
            let side: nat = if half == Half::Low { 14 } else { 0 };
            4 + stage + part + side
        },
        Phase::RegionKey2 => 40,
        Phase::RegionKey1 => 41,
        Phase::RegionCheck => 42,
        Phase::GeneralKey2 => 43,
        Phase::GeneralKey1 => 44,
        Phase::GeneralCheck => 45,
        Phase::Idle => 46,
        Phase::Mask => 47,
        Phase::ReadHigh => 48,
        Phase::ReadLow => 49,
    }
}

/// A written word is taken as it is by an erased cell.
proof fn lemma_erased_takes(word: u32)
    ensures
        ERASED & word == word,
{
    assert(0xffff_ffffu32 & word == word) by (bit_vector);
}

/// An answer from the model brings the operation closer to its end, or
/// leaves it where it is with the controller busy for one read less.
proof fn lemma_progress(job: Reset, s: State)
    requires
        job.wf(),
        job.pending() is Some,
    ensures
        ({
            let action = job.pending().unwrap();
            let after = job.next(s.answer(action));
            rank(after) < rank(job) || (rank(after) == rank(job) && s.after(action).busy < s.busy)
        }),
{
}

/// The invariant holds across the read of a cell.
proof fn lemma_step_read(job: Reset, s: State, s0: State)
    requires
        s0.rest(),
        inv(job, s, s0),
        job.phase is ReadLow || job.phase is ReadHigh,
    ensures
        ({
            let action = job.pending().unwrap();
            inv(job.next(s.answer(action)), s.after(action), s0)
        }),
{
}

/// The invariant holds across the edges of the interrupt-free section.
proof fn lemma_step_section(job: Reset, s: State, s0: State)
    requires
        s0.rest(),
        inv(job, s, s0),
        job.phase is Mask || job.phase is Idle || job.phase is Unmask,
    ensures
        ({
            let action = job.pending().unwrap();
            inv(job.next(s.answer(action)), s.after(action), s0)
        }),
{
}

/// The invariant holds across the opening and closing of the general lock.
proof fn lemma_step_general(job: Reset, s: State, s0: State)
    requires
        s0.rest(),
        inv(job, s, s0),
        job.phase is GeneralCheck || job.phase is GeneralKey1 || job.phase is GeneralKey2
            || job.phase is GeneralRelock,
    ensures
        ({
            let action = job.pending().unwrap();
            inv(job.next(s.answer(action)), s.after(action), s0)
        }),
{
}

/// The invariant holds across the opening and closing of the region lock.
proof fn lemma_step_region(job: Reset, s: State, s0: State)
    requires
        s0.rest(),
        inv(job, s, s0),
        job.phase is RegionCheck || job.phase is RegionKey1 || job.phase is RegionKey2
            || job.phase is RegionRelock,
    ensures
        ({
            let action = job.pending().unwrap();
            inv(job.next(s.answer(action)), s.after(action), s0)
        }),
{
}

/// The invariant holds across the setting of the erase-mode bit.
proof fn lemma_step_mode(job: Reset, s: State, s0: State)
    requires
        s0.rest(),
        inv(job, s, s0),
        job.phase matches Phase::Program { half, cycle } && cycle.stage == Stage::Mode,
    ensures
        ({
            let action = job.pending().unwrap();
            inv(job.next(s.answer(action)), s.after(action), s0)
        }),
{
}

/// The invariant holds across the write to a cell.
proof fn lemma_step_pulse(job: Reset, s: State, s0: State)
    requires
        s0.rest(),
        inv(job, s, s0),
        job.phase matches Phase::Program { half, cycle } && cycle.stage == Stage::Pulse,
    ensures
        ({
            let action = job.pending().unwrap();
            inv(job.next(s.answer(action)), s.after(action), s0)
        }),
{
    lemma_erased_takes(encode(job.group.factory(Half::Low)));
    lemma_erased_takes(encode(job.group.factory(Half::High)));
}

/// The invariant holds across a read of the busy flag in a cycle.
proof fn lemma_step_busy(job: Reset, s: State, s0: State)
    requires
        s0.rest(),
        inv(job, s, s0),
        job.phase matches Phase::Program { half, cycle } && cycle.stage == Stage::Busy,
    ensures
        ({
            let action = job.pending().unwrap();
            inv(job.next(s.answer(action)), s.after(action), s0)
        }),
{
}

/// The invariant holds across the read of the completion event.
proof fn lemma_step_check(job: Reset, s: State, s0: State)
    requires
        s0.rest(),
        inv(job, s, s0),
        job.phase matches Phase::Program { half, cycle } && cycle.stage == Stage::Check,
    ensures
        ({
            let action = job.pending().unwrap();
            inv(job.next(s.answer(action)), s.after(action), s0)
        }),
{
}

/// The invariant holds across the clearing of the completion event.
proof fn lemma_step_ack(job: Reset, s: State, s0: State)
    requires
        s0.rest(),
        inv(job, s, s0),
        job.phase matches Phase::Program { half, cycle } && cycle.stage == Stage::Ack,
    ensures
        ({
            let action = job.pending().unwrap();
            inv(job.next(s.answer(action)), s.after(action), s0)
        }),
{
}

/// The invariant holds across the clearing of the erase-mode bit.
proof fn lemma_step_leave(job: Reset, s: State, s0: State)
    requires
        s0.rest(),
        inv(job, s, s0),
        job.phase matches Phase::Program { half, cycle } && cycle.stage == Stage::Leave,
    ensures
        ({
            let action = job.pending().unwrap();
            inv(job.next(s.answer(action)), s.after(action), s0)
        }),
{
}

/// The invariant holds across a request of an erase or write cycle.
proof fn lemma_step_program(job: Reset, s: State, s0: State)
    requires
        s0.rest(),
        inv(job, s, s0),
        job.phase is Program,
    ensures
        ({
            let action = job.pending().unwrap();
            inv(job.next(s.answer(action)), s.after(action), s0)
        }),
{
    match job.phase {
        Phase::Program { half, cycle } => match cycle.stage {
            Stage::Mode => lemma_step_mode(job, s, s0),
            Stage::Pulse => lemma_step_pulse(job, s, s0),
            Stage::Busy => lemma_step_busy(job, s, s0),
            Stage::Check => lemma_step_check(job, s, s0),
            Stage::Ack => lemma_step_ack(job, s, s0),
            Stage::Leave => lemma_step_leave(job, s, s0),
            Stage::Ended => {},
        },
        _ => {},
    }
}

/// One request performed by the model keeps the invariant.
proof fn lemma_step(job: Reset, s: State, s0: State)
    requires
        s0.rest(),
        inv(job, s, s0),
        job.pending() is Some,
    ensures
        ({
            let action = job.pending().unwrap();
            inv(job.next(s.answer(action)), s.after(action), s0)
        }),
{
    match job.phase {
        Phase::ReadLow | Phase::ReadHigh => lemma_step_read(job, s, s0),
        Phase::Mask | Phase::Idle | Phase::Unmask => lemma_step_section(job, s, s0),
        Phase::GeneralCheck | Phase::GeneralKey1 | Phase::GeneralKey2 | Phase::GeneralRelock =>
            lemma_step_general(job, s, s0),
        Phase::RegionCheck | Phase::RegionKey1 | Phase::RegionKey2 | Phase::RegionRelock =>
            lemma_step_region(job, s, s0),
        Phase::Program { .. } => lemma_step_program(job, s, s0),
        Phase::Done => {},
    }
}

/// An operation that is over has left the state that `settled` describes,
/// with the verdict that `verdict` gives.
proof fn lemma_arrival(job: Reset, s: State, s0: State)
    requires
        s0.rest(),
        inv(job, s, s0),
        job.phase is Done,
    ensures
        s == s0.settled(job.group),
        job.result() == Some(s0.verdict(job.group)),
{
}

impl Device {
    /// Runs a reset operation of the group to its end: performs each request
    /// of the operation in turn and hands it the answer. On a controller at
    /// rest, the operation ends in the state and with the verdict that
    /// `settled` and `verdict` give.
    pub fn reset(&mut self, group: Group) -> (r: Result<(), Fault>)
        ensures
            old(self)@.rest() ==> final(self)@ == old(self)@.settled(group) && r == old(
                self,
            )@.verdict(group),
    {
        let ob: OB = OB::new(pac::OB);
        let mut job: Reset = match group {
            Group::Optr => ob.reset_optr(),
            Group::Wrprot1 => ob.reset_wrprot1(),
            Group::Wrprot2 => ob.reset_wrprot2(),
        };
        let ghost s0 = self@;
        loop
            invariant
                job.wf(),
                job.group == group,
                s0.rest() ==> inv(job, self@, s0),
            ensures
                job.phase is Done,
            decreases rank(job), self@.busy,
        {
            match job.request() {
                None => {
                    break ;
                },
                Some(action) => {
                    proof {
                        lemma_progress(job, self@);
                        if s0.rest() {
                            lemma_step(job, self@, s0);
                        }
                    }
                    let event: Event = self.perform(action);
                    job = job.step(event);
                },
            }
        }
        proof {
            if s0.rest() {
                lemma_arrival(job, self@, s0);
            }
        }
        if job.fault {
            Err(Fault)
        } else {
            Ok(())
        }
    }
}

} // verus!

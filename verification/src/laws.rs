//! What holds of every complete reset operation on a controller at rest.
//!
//! Each statement is about `State::settled` and `State::verdict`, the state
//! and the verdict with which `Device::reset` is proved to end.

use vstd::prelude::*;
use crate::bus::{Cell, Lock};
use crate::device::{KeyWrite, Pulse, State, ERASED};
use crate::ob::{Group, Half, OPTKEY1, OPTKEY2, PEKEY1, PEKEY2};
use crate::pac::ob::{decode, encode, lemma_round_trip};

verus! {

/// Whether a cell is the cell of a stale half of the group.
pub open spec fn targeted(s: State, group: Group, cell: Cell) -> bool {
    ||| s.stale(group, Half::Low) && cell == group.cell(Half::Low)
    ||| s.stale(group, Half::High) && cell == group.cell(Half::High)
}

/// A reset of a group whose cells all hold their factory values returns
/// success and leaves the hardware as it found it: no key word is written,
/// no lock is touched, and no cell is erased or written.
pub proof fn reset_is_idempotent(s: State, group: Group)
    requires
        s.rest(),
        decode(s.cells.get(group.cell(Half::Low))) == Some(group.factory(Half::Low)),
        group.paired() ==> decode(s.cells.get(group.cell(Half::High))) == Some(
            group.factory(Half::High),
        ),
    ensures
        s.verdict(group) is Ok,
        s.settled(group) == s,
        s.settled(group).pulses == s.pulses,
        s.settled(group).keys == s.keys,
{
}

/// Whatever raw words the cells of a group held, erased and corrupt ones
/// among them, after a reset that returns success each cell of the group
/// decodes to its factory value.
pub proof fn reset_restores_factory_values(s: State, group: Group, half: Half)
    requires
        s.rest(),
        s.verdict(group) is Ok,
        half == Half::Low || group.paired(),
    ensures
        decode(s.settled(group).cells.get(group.cell(half))) == Some(group.factory(half)),
        !s.settled(group).stale(group, half),
{
    lemma_round_trip(group.factory(half), encode(group.factory(half)));
}

/// After a reset that returns success, a second reset of the same group
/// finds nothing to do.
pub proof fn reset_heals_once(s: State, group: Group)
    requires
        s.rest(),
        s.verdict(group) is Ok,
    ensures
        s.settled(group).rest(),
        s.settled(group).verdict(group) is Ok,
        s.settled(group).settled(group) == s.settled(group),
{
    reset_restores_factory_values(s, group, Half::Low);
    if group.paired() {
        reset_restores_factory_values(s, group, Half::High);
    }
}

/// A reset leaves each lock as it found it, whether it returns success or a
/// fault, and leaves the controller at rest. Where it has a cell to rewrite,
/// it writes the two key words of each lock that it found closed, those of
/// the general lock first, and no other key word.
pub proof fn reset_keeps_lock_discipline(s: State, group: Group)
    requires
        s.rest(),
    ensures
        s.settled(group).general_locked == s.general_locked,
        s.settled(group).region_locked == s.region_locked,
        s.settled(group).rest(),
        s.needed(group) > 0 && s.general_locked && s.region_locked ==> s.settled(group).keys
            == s.keys.push(KeyWrite { lock: Lock::General, word: PEKEY1 }).push(
            KeyWrite { lock: Lock::General, word: PEKEY2 },
        ).push(KeyWrite { lock: Lock::Region, word: OPTKEY1 }).push(
            KeyWrite { lock: Lock::Region, word: OPTKEY2 },
        ),
        s.needed(group) > 0 && !s.general_locked && s.region_locked ==> s.settled(group).keys
            == s.keys.push(KeyWrite { lock: Lock::Region, word: OPTKEY1 }).push(
            KeyWrite { lock: Lock::Region, word: OPTKEY2 },
        ),
        s.needed(group) == 0 || !s.region_locked ==> s.settled(group).keys == s.keys,
{
}

/// A reset reaches the controller only inside the interrupt-free section,
/// and leaves interrupts as it found them.
pub proof fn reset_is_atomic(s: State, group: Group)
    requires
        s.rest(),
    ensures
        s.settled(group).breach == s.breach,
        s.settled(group).masked == s.masked,
{
}

/// A reset erases and writes only the cells of its group that it found
/// stale: every other cell keeps its raw word, and every cell write on
/// record beyond those that were there is addressed to a stale cell.
pub proof fn reset_spares_correct_cells(s: State, group: Group)
    requires
        s.rest(),
    ensures
        forall|cell: Cell| !targeted(s, group, cell) ==> s.settled(group).cells.get(cell)
            == s.cells.get(cell),
        s.pulses.len() <= s.settled(group).pulses.len() <= s.pulses.len() + s.needed(group),
        s.settled(group).pulses.subrange(0, s.pulses.len() as int) == s.pulses,
        forall|i: int|
            s.pulses.len() <= i < s.settled(group).pulses.len() ==> targeted(
                s,
                group,
                #[trigger] s.settled(group).pulses[i].cell,
            ),
{
    let t = s.settled(group);
    assert(t.pulses.subrange(0, s.pulses.len() as int) =~= s.pulses);
}

/// A reset that returns success has issued, for each stale cell and for no
/// other, one erase and then one write of the encoded factory value, the
/// lower cell first.
pub proof fn reset_issues_one_cycle_each(s: State, group: Group)
    requires
        s.rest(),
        s.verdict(group) is Ok,
    ensures
        ({
            let low = s.stale(group, Half::Low);
            let high = s.stale(group, Half::High);
            let after_low = if low {
                s.pulses.push(Pulse { cell: group.cell(Half::Low), word: 0, erase: true }).push(
                    Pulse {
                        cell: group.cell(Half::Low),
                        word: encode(group.factory(Half::Low)),
                        erase: false,
                    },
                )
            } else {
                s.pulses
            };
            let after_high = if high {
                after_low.push(
                    Pulse { cell: group.cell(Half::High), word: 0, erase: true },
                ).push(
                    Pulse {
                        cell: group.cell(Half::High),
                        word: encode(group.factory(Half::High)),
                        erase: false,
                    },
                )
            } else {
                after_low
            };
            s.settled(group).pulses == after_high
        }),
{
}

/// A reset returns a fault exactly where the controller stops accepting
/// writes before the last one that the reset calls for. The controller has
/// then accepted all that it would, and the reset has issued one write
/// more and none after it.
pub proof fn reset_faults_when_starved(s: State, group: Group)
    requires
        s.rest(),
    ensures
        s.verdict(group) is Err <==> (s.budget matches Some(n) && n < s.needed(group)),
        s.verdict(group) is Err ==> s.settled(group).budget == Some(0u32),
        s.verdict(group) is Err ==> s.settled(group).pulses.len() == s.pulses.len()
            + s.budget.unwrap() + 1,
{
}

/// A reset never leaves in a cell the valid encoding of a wrong value: each
/// cell of the group is left with the raw word that was found, erased, or
/// holding its factory value.
pub proof fn reset_leaves_no_wrong_value(s: State, group: Group, half: Half)
    requires
        s.rest(),
        half == Half::Low || group.paired(),
    ensures
        ({
            let left = s.settled(group).cells.get(group.cell(half));
            ||| left == s.cells.get(group.cell(half))
            ||| left == ERASED && decode(left) is None
            ||| decode(left) == Some(group.factory(half))
        }),
{
    lemma_round_trip(group.factory(half), encode(group.factory(half)));
}

} // verus!

use option_bytes::bus::{Action, Cell, Event, Fault, Lock};
use option_bytes::ob::{Group, Phase, Reset, OB, OPTKEY1, OPTKEY2, PEKEY1, PEKEY2};
use option_bytes::pac;

/// A driver written for these tests alone: it answers each request from a
/// script of its own and counts what it was asked.
struct Bench {
    words: [u32; 5],
    general_locked: bool,
    region_locked: bool,
    erase: bool,
    eop: bool,
    completes: bool,
    erases: u32,
    writes: u32,
    keys: Vec<(Lock, u32)>,
    trace: Vec<Action>,
}

fn slot(cell: Cell) -> usize {
    cell.offset() / 4
}

fn bench(words: [u32; 5], completes: bool) -> Bench {
    Bench {
        words,
        general_locked: true,
        region_locked: true,
        erase: false,
        eop: false,
        completes,
        erases: 0,
        writes: 0,
        keys: Vec::new(),
        trace: Vec::new(),
    }
}

fn perform(bench: &mut Bench, action: Action) -> Event {
    bench.trace.push(action);
    match action {
        Action::ReadCell(cell) => Event::Word(bench.words[slot(cell)]),
        Action::WriteCell(cell, word) => {
            if bench.erase {
                bench.erases += 1;
            } else {
                bench.writes += 1;
            }
            if bench.completes && !bench.general_locked && !bench.region_locked {
                bench.words[slot(cell)] = if bench.erase { 0xffff_ffff } else { word };
                bench.eop = true;
            }
            Event::Done
        }
        Action::ReadBusy => Event::Flag(false),
        Action::ReadEop => Event::Flag(bench.eop),
        Action::ClearEop => {
            bench.eop = false;
            Event::Done
        }
        Action::ReadLock(Lock::General) => Event::Flag(bench.general_locked),
        Action::ReadLock(Lock::Region) => Event::Flag(bench.region_locked),
        Action::WriteKey(lock, word) => {
            bench.keys.push((lock, word));
            if lock == Lock::General && word == PEKEY2 {
                bench.general_locked = false;
            }
            if lock == Lock::Region && word == OPTKEY2 {
                bench.region_locked = false;
            }
            Event::Done
        }
        Action::SetLock(Lock::General) => {
            bench.general_locked = true;
            Event::Done
        }
        Action::SetLock(Lock::Region) => {
            bench.region_locked = true;
            Event::Done
        }
        Action::SetErase => {
            bench.erase = true;
            Event::Done
        }
        Action::ClearErase => {
            bench.erase = false;
            Event::Done
        }
        Action::Mask | Action::Unmask => Event::Done,
    }
}

fn drive(bench: &mut Bench, start: Reset) -> Result<(), Fault> {
    let mut job: Reset = start;
    let mut steps: u32 = 0;
    while let Some(action) = job.request() {
        let event: Event = perform(bench, action);
        job = job.step(event);
        steps += 1;
        assert!(steps < 1000);
    }
    job.outcome().unwrap()
}

const FACTORY: [u32; 5] = [0xff55_00aa, 0x7f8f_8070, 0xffff_0000, 0xffff_0000, 0xffff_0000];

#[test]
fn factory_values_are_the_documented_constants() {
    assert_eq!(OB::OPTR_RESET_VALUE, 0x8070_00aa);
    assert_eq!(OB::WRPROT1_RESET_VALUE, 0);
    assert_eq!(OB::WRPROT2_RESET_VALUE, 0);
    assert_eq!(Group::Optr.factory_value(option_bytes::ob::Half::Low), 0x00aa);
    assert_eq!(Group::Optr.factory_value(option_bytes::ob::Half::High), 0x8070);
    assert_eq!(Group::Wrprot1.factory_value(option_bytes::ob::Half::Low), 0);
    assert_eq!(Group::Wrprot1.factory_value(option_bytes::ob::Half::High), 0);
    assert_eq!(Group::Wrprot2.factory_value(option_bytes::ob::Half::Low), 0);
    assert!(Group::Optr.is_paired());
    assert!(Group::Wrprot1.is_paired());
    assert!(!Group::Wrprot2.is_paired());
}

#[test]
fn key_words_are_the_documented_constants() {
    assert_eq!(PEKEY1, 0x89ab_cdef);
    assert_eq!(PEKEY2, 0x0203_0405);
    assert_eq!(OPTKEY1, 0xfbea_d9c8);
    assert_eq!(OPTKEY2, 0x2425_2627);
}

#[test]
fn reset_operations_start_by_reading_the_lower_cell_of_their_group() {
    let ob: OB = OB::new(pac::OB);
    assert_eq!(ob.reset_optr().request(), Some(Action::ReadCell(Cell::Optrl)));
    assert_eq!(ob.reset_wrprot1().request(), Some(Action::ReadCell(Cell::Wrprot1l)));
    assert_eq!(ob.reset_wrprot2().request(), Some(Action::ReadCell(Cell::Wrprot2l)));
    assert_eq!(ob.reset_optr().group, Group::Optr);
    assert_eq!(ob.reset_wrprot1().group, Group::Wrprot1);
    assert_eq!(ob.reset_wrprot2().group, Group::Wrprot2);
    assert_eq!(ob.reset_optr().outcome(), None);
}

#[test]
fn reset_of_correct_cells_only_reads_them() {
    let ob: OB = OB::new(pac::OB);
    let mut hw: Bench = bench(FACTORY, true);
    assert_eq!(drive(&mut hw, ob.reset_optr()), Ok(()));
    assert_eq!(hw.trace, vec![Action::ReadCell(Cell::Optrl), Action::ReadCell(Cell::Optrh)]);
    assert_eq!(hw.erases, 0);
    assert_eq!(hw.writes, 0);
    assert!(hw.keys.is_empty());
    let mut hw: Bench = bench(FACTORY, true);
    assert_eq!(drive(&mut hw, ob.reset_wrprot1()), Ok(()));
    assert_eq!(hw.trace, vec![Action::ReadCell(Cell::Wrprot1l), Action::ReadCell(Cell::Wrprot1h)]);
    let mut hw: Bench = bench(FACTORY, true);
    assert_eq!(drive(&mut hw, ob.reset_wrprot2()), Ok(()));
    assert_eq!(hw.trace, vec![Action::ReadCell(Cell::Wrprot2l)]);
}

#[test]
fn reset_of_a_single_stale_cell_issues_the_full_sequence_in_order() {
    let ob: OB = OB::new(pac::OB);
    let mut words: [u32; 5] = FACTORY;
    words[4] = 0xffff_ffff;
    let mut hw: Bench = bench(words, true);
    assert_eq!(drive(&mut hw, ob.reset_wrprot2()), Ok(()));
    assert_eq!(
        hw.trace,
        vec![
            Action::ReadCell(Cell::Wrprot2l),
            Action::Mask,
            Action::ReadBusy,
            Action::ReadLock(Lock::General),
            Action::WriteKey(Lock::General, 0x89ab_cdef),
            Action::WriteKey(Lock::General, 0x0203_0405),
            Action::ReadLock(Lock::Region),
            Action::WriteKey(Lock::Region, 0xfbea_d9c8),
            Action::WriteKey(Lock::Region, 0x2425_2627),
            Action::SetErase,
            Action::WriteCell(Cell::Wrprot2l, 0),
            Action::ReadBusy,
            Action::ReadEop,
            Action::ClearEop,
            Action::ClearErase,
            Action::WriteCell(Cell::Wrprot2l, 0xffff_0000),
            Action::ReadBusy,
            Action::ReadEop,
            Action::ClearEop,
            Action::SetLock(Lock::Region),
            Action::SetLock(Lock::General),
            Action::Unmask,
        ]
    );
    assert_eq!(hw.words[4], 0xffff_0000);
    assert!(hw.general_locked && hw.region_locked);
}

#[test]
fn reset_skips_the_unlock_and_the_relock_of_a_lock_found_open() {
    let ob: OB = OB::new(pac::OB);
    let mut words: [u32; 5] = FACTORY;
    words[4] = 0;
    let mut hw: Bench = bench(words, true);
    hw.general_locked = false;
    assert_eq!(drive(&mut hw, ob.reset_wrprot2()), Ok(()));
    assert_eq!(hw.keys, vec![(Lock::Region, 0xfbea_d9c8), (Lock::Region, 0x2425_2627)]);
    assert!(hw.trace.contains(&Action::SetLock(Lock::Region)));
    assert!(!hw.trace.contains(&Action::SetLock(Lock::General)));
    assert!(!hw.general_locked);
    assert!(hw.region_locked);

    let mut hw: Bench = bench(words, true);
    hw.general_locked = false;
    hw.region_locked = false;
    assert_eq!(drive(&mut hw, ob.reset_wrprot2()), Ok(()));
    assert!(hw.keys.is_empty());
    assert!(!hw.trace.contains(&Action::SetLock(Lock::Region)));
    assert!(!hw.trace.contains(&Action::SetLock(Lock::General)));
    assert_eq!(hw.words[4], 0xffff_0000);
}

#[test]
fn reset_rewrites_only_the_cell_that_differs() {
    let ob: OB = OB::new(pac::OB);
    let mut words: [u32; 5] = FACTORY;
    words[3] = 0xfffe_0001;
    let mut hw: Bench = bench(words, true);
    assert_eq!(drive(&mut hw, ob.reset_wrprot1()), Ok(()));
    assert_eq!(hw.erases, 1);
    assert_eq!(hw.writes, 1);
    for action in hw.trace.iter() {
        if let Action::WriteCell(cell, _) = action {
            assert_eq!(*cell, Cell::Wrprot1h);
        }
    }
    assert_eq!(hw.words, FACTORY);
}

#[test]
fn reset_waits_as_long_as_the_controller_is_busy() {
    let ob: OB = OB::new(pac::OB);
    let mut job: Reset = ob.reset_wrprot2();
    job = job.step(Event::Word(0));
    assert_eq!(job.request(), Some(Action::Mask));
    job = job.step(Event::Done);
    for _ in 0..500 {
        assert_eq!(job.request(), Some(Action::ReadBusy));
        job = job.step(Event::Flag(true));
        assert_eq!(job.phase, Phase::Idle);
    }
    job = job.step(Event::Flag(false));
    assert_eq!(job.request(), Some(Action::ReadLock(Lock::General)));
}

#[test]
fn reset_ignores_an_answer_of_the_wrong_kind() {
    let ob: OB = OB::new(pac::OB);
    let start: Reset = ob.reset_optr();
    assert_eq!(start.step(Event::Done), start);
    assert_eq!(start.step(Event::Flag(true)), start);
    let masked: Reset = start.step(Event::Word(0)).step(Event::Word(0));
    assert_eq!(masked.request(), Some(Action::Mask));
    assert_eq!(masked.step(Event::Word(1)), masked);
    assert_eq!(masked.step(Event::Flag(false)), masked);
}

#[test]
fn finished_reset_stays_finished() {
    let ob: OB = OB::new(pac::OB);
    let done: Reset = ob.reset_wrprot2().step(Event::Word(0xffff_0000));
    assert_eq!(done.request(), None);
    assert_eq!(done.outcome(), Some(Ok(())));
    assert_eq!(done.step(Event::Done), done);
    assert_eq!(done.step(Event::Word(5)), done);
}

#[test]
fn fault_in_the_first_erase_abandons_the_rest_and_still_relocks() {
    let ob: OB = OB::new(pac::OB);
    let words: [u32; 5] = [0xffff_7fff, 0xffff_8054, 0, 0, 0];
    let mut hw: Bench = bench(words, false);
    assert_eq!(drive(&mut hw, ob.reset_optr()), Err(Fault));
    assert_eq!(hw.erases, 1);
    assert_eq!(hw.writes, 0);
    assert_eq!(hw.words, words);
    assert!(hw.general_locked && hw.region_locked);
    assert!(!hw.erase);
    let tail: Vec<Action> = hw.trace[hw.trace.len() - 4..].to_vec();
    assert_eq!(
        tail,
        vec![
            Action::ClearErase,
            Action::SetLock(Lock::Region),
            Action::SetLock(Lock::General),
            Action::Unmask,
        ]
    );
}

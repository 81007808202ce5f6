use option_bytes::bus::{Action, Cell, Event, Fault, Lock};
use option_bytes::device::{Cells, Device, KeyWrite, Pulse, ERASED};
use option_bytes::ob::Group;
use option_bytes::pac::ob::decode_u16;

fn factory() -> Cells {
    Cells {
        optrl: 0xff55_00aa,
        optrh: 0x7f8f_8070,
        wrprot1l: 0xffff_0000,
        wrprot1h: 0xffff_0000,
        wrprot2l: 0xffff_0000,
    }
}

fn all_keys() -> Vec<KeyWrite> {
    vec![
        KeyWrite { lock: Lock::General, word: 0x89ab_cdef },
        KeyWrite { lock: Lock::General, word: 0x0203_0405 },
        KeyWrite { lock: Lock::Region, word: 0xfbea_d9c8 },
        KeyWrite { lock: Lock::Region, word: 0x2425_2627 },
    ]
}

fn erases(device: &Device) -> usize {
    device.pulses().iter().filter(|p| p.erase).count()
}

fn writes(device: &Device) -> usize {
    device.pulses().iter().filter(|p| !p.erase).count()
}

#[test]
fn boot_option_cells_are_restored_from_corrupt_words() {
    let mut cells: Cells = factory();
    cells.optrl = 0xffff_7fff;
    cells.optrh = 0xffff_8054;
    let mut device: Device = Device::new(cells, 2, None);
    assert_eq!(device.reset(Group::Optr), Ok(()));
    let low: u16 = decode_u16(device.word(Cell::Optrl)).unwrap();
    let high: u16 = decode_u16(device.word(Cell::Optrh)).unwrap();
    assert_eq!(((high as u32) << 16) | low as u32, 0x8070_00aa);
    assert_eq!(erases(&device), 2);
    assert_eq!(writes(&device), 2);
    assert_eq!(
        device.pulses(),
        &vec![
            Pulse { cell: Cell::Optrl, word: 0, erase: true },
            Pulse { cell: Cell::Optrl, word: 0xff55_00aa, erase: false },
            Pulse { cell: Cell::Optrh, word: 0, erase: true },
            Pulse { cell: Cell::Optrh, word: 0x7f8f_8070, erase: false },
        ]
    );
    assert_eq!(device.cells(), factory());
}

#[test]
fn write_protection_word_at_zero_is_left_alone() {
    let mut device: Device = Device::new(factory(), 2, None);
    assert_eq!(device.reset(Group::Wrprot1), Ok(()));
    assert_eq!(device.reset(Group::Wrprot2), Ok(()));
    assert_eq!(erases(&device), 0);
    assert_eq!(writes(&device), 0);
    assert!(device.keys().is_empty());
    assert_eq!(device.cells(), factory());
}

#[test]
fn reset_of_factory_values_changes_nothing_for_any_group() {
    for group in [Group::Optr, Group::Wrprot1, Group::Wrprot2] {
        let mut device: Device = Device::new(factory(), 5, Some(0));
        assert_eq!(device.reset(group), Ok(()));
        assert!(device.pulses().is_empty());
        assert!(device.keys().is_empty());
        assert_eq!(device.cells(), factory());
        assert_eq!(device.budget(), Some(0));
        assert!(device.is_locked(Lock::General));
        assert!(device.is_locked(Lock::Region));
        assert!(!device.is_masked());
        assert!(!device.breached());
    }
}

#[test]
fn controller_that_never_completes_gives_a_fault_with_the_locks_closed() {
    let mut cells: Cells = factory();
    cells.optrl = 0xffff_7fff;
    cells.optrh = 0xffff_8054;
    let mut device: Device = Device::new(cells, 2, Some(0));
    assert_eq!(device.reset(Group::Optr), Err(Fault));
    assert_eq!(device.cells(), cells);
    assert!(device.is_locked(Lock::General));
    assert!(device.is_locked(Lock::Region));
    assert_eq!(device.keys(), &all_keys());
    assert_eq!(device.pulses(), &vec![Pulse { cell: Cell::Optrl, word: 0, erase: true }]);
    assert!(device.at_rest());
    assert!(!device.is_masked());
}

#[test]
fn fault_after_an_erase_leaves_the_cell_erased_and_unreadable() {
    let mut cells: Cells = factory();
    cells.wrprot2l = 0xfffe_0001;
    let mut device: Device = Device::new(cells, 0, Some(1));
    assert_eq!(device.reset(Group::Wrprot2), Err(Fault));
    assert_eq!(device.word(Cell::Wrprot2l), ERASED);
    assert_eq!(decode_u16(device.word(Cell::Wrprot2l)), None);
    assert_eq!(erases(&device), 1);
    assert_eq!(writes(&device), 1);
    assert_eq!(device.budget(), Some(0));
    assert!(device.is_locked(Lock::General) && device.is_locked(Lock::Region));
}

#[test]
fn fault_in_the_second_cell_keeps_the_first_cell_restored() {
    let mut cells: Cells = factory();
    cells.wrprot1l = 0x1234_5678;
    cells.wrprot1h = 0x0000_0000;
    let mut device: Device = Device::new(cells, 1, Some(2));
    assert_eq!(device.reset(Group::Wrprot1), Err(Fault));
    assert_eq!(device.word(Cell::Wrprot1l), 0xffff_0000);
    assert_eq!(device.word(Cell::Wrprot1h), 0x0000_0000);
    assert_eq!(device.pulses().len(), 3);
    assert_eq!(device.pulses()[2], Pulse { cell: Cell::Wrprot1h, word: 0, erase: true });
}

#[test]
fn budget_of_exactly_the_needed_writes_is_enough() {
    let mut cells: Cells = factory();
    cells.optrl = 0;
    cells.optrh = 0;
    let mut device: Device = Device::new(cells, 3, Some(4));
    assert_eq!(device.reset(Group::Optr), Ok(()));
    assert_eq!(device.cells(), factory());
    assert_eq!(device.budget(), Some(0));
    let mut device: Device = Device::new(cells, 3, Some(3));
    assert_eq!(device.reset(Group::Optr), Err(Fault));
    assert_eq!(device.word(Cell::Optrl), 0xff55_00aa);
    assert_eq!(device.word(Cell::Optrh), ERASED);
    assert_eq!(device.pulses().len(), 4);
}

#[test]
fn only_the_incorrect_cell_of_a_group_is_erased_and_written() {
    let mut cells: Cells = factory();
    cells.optrh = 0xffff_ffff;
    let mut device: Device = Device::new(cells, 2, None);
    assert_eq!(device.reset(Group::Optr), Ok(()));
    assert_eq!(
        device.pulses(),
        &vec![
            Pulse { cell: Cell::Optrh, word: 0, erase: true },
            Pulse { cell: Cell::Optrh, word: 0x7f8f_8070, erase: false },
        ]
    );
    let mut cells: Cells = factory();
    cells.wrprot1l = 0xffff_0001;
    let mut device: Device = Device::new(cells, 2, None);
    assert_eq!(device.reset(Group::Wrprot1), Ok(()));
    assert_eq!(
        device.pulses(),
        &vec![
            Pulse { cell: Cell::Wrprot1l, word: 0, erase: true },
            Pulse { cell: Cell::Wrprot1l, word: 0xffff_0000, erase: false },
        ]
    );
    assert_eq!(device.cells(), factory());
}

#[test]
fn reset_of_one_group_leaves_the_cells_of_the_others() {
    let cells: Cells = Cells {
        optrl: 0x1111_1111,
        optrh: 0x2222_2222,
        wrprot1l: 0x3333_3333,
        wrprot1h: 0x4444_4444,
        wrprot2l: 0x5555_5555,
    };
    let mut device: Device = Device::new(cells, 1, None);
    assert_eq!(device.reset(Group::Wrprot2), Ok(()));
    assert_eq!(device.cells(), Cells { wrprot2l: 0xffff_0000, ..cells });
    assert_eq!(device.reset(Group::Wrprot1), Ok(()));
    assert_eq!(
        device.cells(),
        Cells { wrprot1l: 0xffff_0000, wrprot1h: 0xffff_0000, wrprot2l: 0xffff_0000, ..cells }
    );
    assert_eq!(device.reset(Group::Optr), Ok(()));
    assert_eq!(device.cells(), factory());
}

#[test]
fn closed_locks_are_opened_with_their_key_words_in_order_and_closed_again() {
    let mut cells: Cells = factory();
    cells.wrprot2l = 0xffff_ffff;
    let mut device: Device = Device::new(cells, 4, None);
    assert!(device.is_locked(Lock::General) && device.is_locked(Lock::Region));
    assert_eq!(device.reset(Group::Wrprot2), Ok(()));
    assert_eq!(device.keys(), &all_keys());
    assert!(device.is_locked(Lock::General) && device.is_locked(Lock::Region));
    assert!(device.at_rest());
}

#[test]
fn second_reset_after_success_finds_nothing_to_do() {
    let cells: Cells =
        Cells { optrl: 0, optrh: 0xffff_ffff, wrprot1l: 1, wrprot1h: 2, wrprot2l: 3 };
    let mut device: Device = Device::new(cells, 3, None);
    for group in [Group::Optr, Group::Wrprot1, Group::Wrprot2] {
        assert_eq!(device.reset(group), Ok(()));
    }
    assert_eq!(device.cells(), factory());
    assert_eq!(device.pulses().len(), 10);
    assert_eq!(device.keys().len(), 12);
    for group in [Group::Optr, Group::Wrprot1, Group::Wrprot2] {
        assert_eq!(device.reset(group), Ok(()));
    }
    assert_eq!(device.pulses().len(), 10);
    assert_eq!(device.keys().len(), 12);
}

#[test]
fn reset_touches_the_controller_only_with_interrupts_disabled() {
    let mut device: Device = Device::new(Cells { wrprot2l: 7, ..factory() }, 2, None);
    assert_eq!(device.reset(Group::Wrprot2), Ok(()));
    assert!(!device.breached());
    assert!(!device.is_masked());
    assert_eq!(device.perform(Action::ReadBusy), Event::Flag(false));
    assert!(device.breached());
}

#[test]
fn interrupt_mask_is_restored_to_what_it_was() {
    let mut device: Device = Device::new(Cells { wrprot2l: 7, ..factory() }, 2, None);
    assert_eq!(device.perform(Action::Mask), Event::Done);
    assert!(device.is_masked());
    assert_eq!(device.reset(Group::Wrprot2), Ok(()));
    assert!(device.is_masked());
    assert_eq!(device.word(Cell::Wrprot2l), 0xffff_0000);
}

#[test]
fn model_opens_a_lock_only_on_its_two_key_words_in_order() {
    let mut device: Device = Device::new(factory(), 0, None);
    assert_eq!(device.perform(Action::WriteKey(Lock::General, 0x0203_0405)), Event::Done);
    assert_eq!(device.perform(Action::ReadLock(Lock::General)), Event::Flag(true));
    assert_eq!(device.perform(Action::WriteKey(Lock::General, 0x89ab_cdef)), Event::Done);
    assert_eq!(device.perform(Action::WriteKey(Lock::General, 0x89ab_cdef)), Event::Done);
    assert_eq!(device.perform(Action::ReadLock(Lock::General)), Event::Flag(true));
    assert_eq!(device.perform(Action::WriteKey(Lock::General, 0x89ab_cdef)), Event::Done);
    assert_eq!(device.perform(Action::WriteKey(Lock::General, 0x0203_0405)), Event::Done);
    assert_eq!(device.perform(Action::ReadLock(Lock::General)), Event::Flag(false));
    assert_eq!(device.perform(Action::ReadLock(Lock::Region)), Event::Flag(true));
    assert_eq!(device.keys().len(), 5);
}

#[test]
fn model_keeps_the_region_lock_closed_while_the_general_lock_is() {
    let mut device: Device = Device::new(factory(), 0, None);
    assert_eq!(device.perform(Action::WriteKey(Lock::Region, 0xfbea_d9c8)), Event::Done);
    assert_eq!(device.perform(Action::WriteKey(Lock::Region, 0x2425_2627)), Event::Done);
    assert!(device.is_locked(Lock::Region));
    assert_eq!(device.perform(Action::WriteKey(Lock::General, 0x89ab_cdef)), Event::Done);
    assert_eq!(device.perform(Action::WriteKey(Lock::General, 0x0203_0405)), Event::Done);
    assert_eq!(device.perform(Action::WriteKey(Lock::Region, 0xfbea_d9c8)), Event::Done);
    assert_eq!(device.perform(Action::WriteKey(Lock::Region, 0x2425_2627)), Event::Done);
    assert!(!device.is_locked(Lock::Region));
    assert_eq!(device.perform(Action::SetLock(Lock::General)), Event::Done);
    assert!(device.is_locked(Lock::General));
    assert!(device.is_locked(Lock::Region));
}

#[test]
fn model_rejects_a_write_to_a_cell_behind_a_closed_lock() {
    let mut device: Device = Device::new(factory(), 0, None);
    assert_eq!(device.perform(Action::WriteCell(Cell::Optrl, 0)), Event::Done);
    assert_eq!(device.word(Cell::Optrl), 0xff55_00aa);
    assert_eq!(device.perform(Action::ReadEop), Event::Flag(false));
    assert!(!device.raised());
    assert_eq!(device.pulses(), &vec![Pulse { cell: Cell::Optrl, word: 0, erase: false }]);
}

#[test]
fn model_write_only_clears_bits_and_erase_sets_them_all() {
    let mut device: Device = Device::new(factory(), 2, None);
    for action in [
        Action::WriteKey(Lock::General, 0x89ab_cdef),
        Action::WriteKey(Lock::General, 0x0203_0405),
        Action::WriteKey(Lock::Region, 0xfbea_d9c8),
        Action::WriteKey(Lock::Region, 0x2425_2627),
    ] {
        assert_eq!(device.perform(action), Event::Done);
    }
    assert_eq!(device.perform(Action::WriteCell(Cell::Optrl, 0x0f0f_ffff)), Event::Done);
    assert_eq!(device.word(Cell::Optrl), 0x0f05_00aa);
    assert_eq!(device.perform(Action::ReadBusy), Event::Flag(true));
    assert_eq!(device.perform(Action::WriteCell(Cell::Optrl, 0)), Event::Done);
    assert_eq!(device.word(Cell::Optrl), 0x0f05_00aa);
    assert_eq!(device.perform(Action::ReadBusy), Event::Flag(true));
    assert_eq!(device.perform(Action::ReadBusy), Event::Flag(false));
    assert_eq!(device.perform(Action::ReadEop), Event::Flag(true));
    assert_eq!(device.perform(Action::ClearEop), Event::Done);
    assert_eq!(device.perform(Action::ReadEop), Event::Flag(false));
    assert_eq!(device.perform(Action::SetErase), Event::Done);
    assert_eq!(device.perform(Action::WriteCell(Cell::Optrl, 0)), Event::Done);
    assert_eq!(device.word(Cell::Optrl), 0xffff_ffff);
    assert_eq!(device.perform(Action::ClearErase), Event::Done);
    assert_eq!(device.perform(Action::ReadCell(Cell::Optrl)), Event::Word(0xffff_ffff));
}

#[test]
fn cells_are_read_and_written_one_by_one() {
    let mut cells: Cells = factory();
    cells.write(Cell::Wrprot1h, 9);
    assert_eq!(cells.read(Cell::Wrprot1h), 9);
    assert_eq!(cells.read(Cell::Wrprot1l), 0xffff_0000);
    assert_eq!(cells, Cells { wrprot1h: 9, ..factory() });
}

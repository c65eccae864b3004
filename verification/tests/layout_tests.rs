use shm_ipc::layout::{advanced, is_valid_capacity, occupied, slot_of, ShmHeader, BUF_SIZE};

#[test]
fn powers_of_two_are_valid_capacities() {
    for shift in 0..(usize::BITS as usize) {
        assert!(is_valid_capacity(1usize << shift), "1 << {}", shift);
    }
    assert!(is_valid_capacity(4096));
    assert!(is_valid_capacity(4 * 1024 * 1024));
}

#[test]
fn the_default_capacity_is_a_power_of_two() {
    assert_eq!(BUF_SIZE, 4 * 1024 * 1024);
    assert!(is_valid_capacity(BUF_SIZE));
}

#[test]
fn other_numbers_are_not_valid_capacities() {
    assert!(!is_valid_capacity(0));
    assert!(!is_valid_capacity(3));
    assert!(!is_valid_capacity(6));
    assert!(!is_valid_capacity(12));
    assert!(!is_valid_capacity(4095));
    assert!(!is_valid_capacity(4097));
    assert!(!is_valid_capacity(usize::MAX));
}

#[test]
fn occupied_is_the_plain_difference_without_wrap() {
    assert_eq!(occupied(0, 0), 0);
    assert_eq!(occupied(5, 3), 2);
    assert_eq!(occupied(u64::MAX, 0), u64::MAX);
}

#[test]
fn occupied_wraps_at_the_machine_word() {
    assert_eq!(occupied(2, u64::MAX - 1), 4);
    assert_eq!(occupied(0, u64::MAX), 1);
}

#[test]
fn advanced_wraps_at_the_machine_word() {
    assert_eq!(advanced(10, 6), 16);
    assert_eq!(advanced(u64::MAX, 1), 0);
    assert_eq!(advanced(u64::MAX - 1, 4), 2);
    assert_eq!(advanced(7, 0), 7);
}

#[test]
fn slot_is_the_cursor_modulo_the_capacity() {
    assert_eq!(slot_of(0, 8), 0);
    assert_eq!(slot_of(5, 8), 5);
    assert_eq!(slot_of(13, 8), 5);
    assert_eq!(slot_of(16, 8), 0);
    assert_eq!(slot_of(u64::MAX, 8), 7);
    assert_eq!(slot_of(u64::MAX, 1), 0);
}

#[test]
fn slots_go_on_across_the_wrap_of_the_cursor() {
    let capacity = 16usize;
    let start = u64::MAX - 5;
    let mut previous = slot_of(start, capacity);
    for step in 1..40usize {
        let at = slot_of(advanced(start, step), capacity);
        assert_eq!(at, (previous + 1) % capacity);
        previous = at;
    }
}

#[test]
fn a_new_header_is_zeroed() {
    let header = ShmHeader::new();
    assert_eq!(header.start_index, 0);
    assert_eq!(header.end_index, 0);
    assert_eq!(header.transfer_started, 0);
    assert!(!header.started());
    assert_eq!(header.available(), 0);
    assert_eq!(header.unused(8), 8);
    assert!(header.is_consistent(8));
}

#[test]
fn started_follows_the_flag() {
    let mut header = ShmHeader::new();
    header.transfer_started = 1;
    assert!(header.started());
    header.transfer_started = 0;
    assert!(!header.started());
}

#[test]
fn a_header_is_inconsistent_beyond_the_capacity_or_with_a_bad_capacity() {
    let header = ShmHeader { start_index: 3, end_index: 12, transfer_started: 1 };
    assert!(header.is_consistent(16));
    assert!(!header.is_consistent(8));
    assert!(!header.is_consistent(12));
    let regressed = ShmHeader { start_index: 5, end_index: 4, transfer_started: 1 };
    assert!(!regressed.is_consistent(16));
}

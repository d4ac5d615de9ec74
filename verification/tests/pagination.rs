use auto_sade::pagination::{needs_advance, page_offset, page_position, PAGE_SIZE};

#[test]
fn page_offset_of_first_item_is_zero() {
    assert_eq!(page_offset(1, 100), 0);
}

#[test]
fn page_offset_of_item_101_is_one() {
    assert_eq!(page_offset(101, 100), 1);
}

#[test]
fn page_offset_of_item_250_is_two() {
    assert_eq!(page_offset(250, 100), 2);
}

#[test]
fn page_offset_at_page_ends() {
    assert_eq!(page_offset(100, 100), 0);
    assert_eq!(page_offset(200, 100), 1);
    assert_eq!(page_offset(201, 100), 2);
    assert_eq!(page_offset(u32::MAX, 100), 42_949_672);
}

#[test]
fn page_position_wraps_at_page_size() {
    assert_eq!(page_position(1, 100), 0);
    assert_eq!(page_position(100, 100), 99);
    assert_eq!(page_position(101, 100), 0);
    assert_eq!(page_position(200, 100), 99);
}

#[test]
fn page_size_is_one_hundred() {
    assert_eq!(PAGE_SIZE, 100);
}

#[test]
fn offset_and_position_give_the_index_back() {
    for index in [1u32, 2, 99, 100, 101, 250, 1000, 12345, u32::MAX] {
        let offset = page_offset(index, PAGE_SIZE);
        let position = page_position(index, PAGE_SIZE);
        assert_eq!(offset as u64 * 100 + position as u64 + 1, index as u64);
    }
}

#[test]
fn advance_is_due_only_at_a_page_start_after_the_first_item() {
    assert!(!needs_advance(1, 1, 100));
    assert!(!needs_advance(101, 101, 100));
    assert!(needs_advance(101, 50, 100));
    assert!(needs_advance(201, 101, 100));
    assert!(!needs_advance(100, 50, 100));
    assert!(!needs_advance(102, 50, 100));
}

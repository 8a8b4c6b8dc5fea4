use stackful::stack::{default_layout, layout_for, OutOfMemory, DEFAULT_STACK_SIZE, PAGE_SIZE};

#[test]
fn layout_rounds_one_byte_to_a_page() {
    let layout = layout_for(1).unwrap();
    assert_eq!(layout.usable_len, PAGE_SIZE);
    assert_eq!(layout.total_len, 2 * PAGE_SIZE);
}

#[test]
fn layout_keeps_exact_page_multiple() {
    let layout = layout_for(2 * PAGE_SIZE).unwrap();
    assert_eq!(layout.usable_len, 2 * PAGE_SIZE);
    assert_eq!(layout.total_len, 3 * PAGE_SIZE);
}

#[test]
fn layout_rounds_up_mid_page() {
    let layout = layout_for(PAGE_SIZE + 1).unwrap();
    assert_eq!(layout.usable_len, 2 * PAGE_SIZE);
    assert_eq!(layout.total_len, 3 * PAGE_SIZE);
}

#[test]
fn layout_of_zero_is_one_guard_page() {
    let layout = layout_for(0).unwrap();
    assert_eq!(layout.usable_len, 0);
    assert_eq!(layout.total_len, PAGE_SIZE);
}

#[test]
fn layout_fails_out_of_memory_on_huge_request() {
    assert_eq!(layout_for(usize::MAX).unwrap_err(), OutOfMemory);
    assert_eq!(layout_for(usize::MAX - 2 * PAGE_SIZE + 2).unwrap_err(), OutOfMemory);
}

#[test]
fn layout_largest_request_that_fits() {
    let layout = layout_for(usize::MAX - 2 * PAGE_SIZE + 1).unwrap();
    assert_eq!(layout.usable_len, usize::MAX - 2 * PAGE_SIZE + 1);
    assert_eq!(layout.total_len, usize::MAX - PAGE_SIZE + 1);
}

#[test]
fn default_layout_is_default_size() {
    let layout = default_layout();
    assert_eq!(layout.usable_len, DEFAULT_STACK_SIZE);
    assert_eq!(layout.total_len, DEFAULT_STACK_SIZE + PAGE_SIZE);
}

#[test]
fn stack_pointer_reads_nonzero() {
    assert_ne!(stackful::introspect::current_stack_ptr(), 0);
}

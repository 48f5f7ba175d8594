use block_producer::pagination::{page_items, page_window, IterDirection, PageWindow, PaginationError};

#[test]
fn first_page_forward() {
    let w = page_window(10, Some(3), false, None, false).unwrap();
    assert_eq!(
        w,
        PageWindow { skip: 0, take: 3, direction: IterDirection::Forward, has_previous_page: false, has_next_page: true }
    );
    let items: Vec<u32> = (0..10).collect();
    assert_eq!(page_items(&items, w), vec![0, 1, 2]);
}

#[test]
fn after_cursor_skips_one() {
    let w = page_window(4, Some(5), true, None, false).unwrap();
    assert_eq!(w.skip, 1);
    assert_eq!(w.take, 3);
    assert!(w.has_previous_page);
    assert!(!w.has_next_page);
    let items = vec![10u32, 11, 12, 13];
    assert_eq!(page_items(&items, w), vec![11, 12, 13]);
}

#[test]
fn last_page_is_reversed() {
    let w = page_window(5, None, false, Some(2), true).unwrap();
    assert_eq!(w.direction, IterDirection::Reverse);
    assert_eq!((w.skip, w.take, w.has_previous_page, w.has_next_page), (1, 2, true, true));
    let items = vec![50u32, 40, 30, 20, 10];
    assert_eq!(page_items(&items, w), vec![30, 40]);
}

#[test]
fn no_bounds_gives_empty_page() {
    let w = page_window(3, None, false, None, false).unwrap();
    assert_eq!((w.take, w.has_next_page), (0, true));
    let w = page_window(0, None, false, None, false).unwrap();
    assert_eq!((w.take, w.has_next_page), (0, false));
}

#[test]
fn empty_source_with_cursor() {
    let w = page_window(0, Some(2), true, None, false).unwrap();
    assert_eq!((w.skip, w.take, w.has_previous_page, w.has_next_page), (0, 0, false, false));
}

#[test]
fn contradictory_arguments_refused() {
    let e = Err(PaginationError::WrongArgumentCombination);
    assert_eq!(page_window(5, Some(1), false, None, true), e);
    assert_eq!(page_window(5, None, true, None, true), e);
    assert_eq!(page_window(5, None, true, Some(1), false), e);
    assert!(page_window(5, Some(1), true, Some(1), false).is_err());
    assert!(page_window(5, Some(1), true, None, false).is_ok());
}

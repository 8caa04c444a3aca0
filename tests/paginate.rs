use keycloak_api::paginate::{PageCursor, PAGE_MAX};

/// Runs a cursor against pages of the given sizes; each item is its global index.
fn walk(sizes: &[usize]) -> (Vec<(i32, i32)>, Vec<usize>) {
    let mut cursor = PageCursor::new();
    let mut calls = Vec::new();
    let mut next = 0usize;
    while let Some((offset, max)) = cursor.next_page() {
        calls.push((offset, max));
        let size = sizes[calls.len() - 1];
        let page: Vec<usize> = (next..next + size).collect();
        next += size;
        cursor.accept(page);
    }
    (calls, cursor.into_items())
}

#[test]
fn three_pages_ending_short() {
    let (calls, items) = walk(&[100, 100, 37]);
    assert_eq!(calls, vec![(0, 100), (100, 100), (200, 100)]);
    assert_eq!(items.len(), 237);
    assert_eq!(items, (0..237).collect::<Vec<usize>>());
}

#[test]
fn full_page_then_empty_page() {
    let (calls, items) = walk(&[100, 0]);
    assert_eq!(calls.len(), 2);
    assert_eq!(items.len(), 100);
}

#[test]
fn short_first_page_makes_one_call() {
    let (calls, items) = walk(&[5]);
    assert_eq!(calls, vec![(0, PAGE_MAX)]);
    assert_eq!(items, vec![0, 1, 2, 3, 4]);
}

#[test]
fn empty_first_page_makes_one_call() {
    let (calls, items) = walk(&[0]);
    assert_eq!(calls.len(), 1);
    assert!(items.is_empty());
}

#[test]
fn cursor_state_after_full_page() {
    let mut cursor: PageCursor<u8> = PageCursor::new();
    cursor.accept(vec![0; 100]);
    assert!(!cursor.is_done());
    assert_eq!(cursor.next_page(), Some((100, 100)));
    cursor.accept(vec![1; 99]);
    assert!(cursor.is_done());
    assert_eq!(cursor.next_page(), None);
}

#[test]
fn longer_page_does_not_end_the_walk() {
    let (calls, items) = walk(&[101, 100, 3]);
    assert_eq!(calls, vec![(0, 100), (100, 100), (200, 100)]);
    assert_eq!(items.len(), 204);
}

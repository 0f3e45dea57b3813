use luxnulla::table::{SubData, TableNav};

fn nav(n: u32, rows: usize) -> TableNav {
    let mut t = TableNav::new();
    for i in 0..n {
        t.items.push(SubData::new(i + 1));
    }
    t.visible_rows = rows;
    t
}

#[test]
fn sub_data_new_is_empty() {
    let d = SubData::new(7);
    assert_eq!(d.id, 7);
    assert!(d.protocol.is_empty() && d.address.is_empty() && d.name.is_empty());
    assert!(d.test_result.is_empty());
}

#[test]
fn next_wraps_and_scrolls() {
    let mut t = nav(5, 2);
    t.next();
    assert_eq!(t.selected, Some(1));
    assert_eq!(t.scroll_offset, 0);
    t.next();
    assert_eq!(t.selected, Some(2));
    assert_eq!(t.scroll_offset, 1);
    t.selected = Some(4);
    t.next();
    assert_eq!(t.selected, Some(0));
    assert_eq!(t.scroll_offset, 0);
}

#[test]
fn previous_wraps_and_scrolls() {
    let mut t = nav(5, 2);
    t.previous();
    assert_eq!(t.selected, Some(4));
    assert_eq!(t.scroll_offset, 3);
    t.previous();
    assert_eq!(t.selected, Some(3));
    assert_eq!(t.scroll_offset, 3);
}

#[test]
fn paging() {
    let mut t = nav(10, 3);
    t.page_down();
    assert_eq!(t.selected, Some(3));
    assert_eq!(t.scroll_offset, 1);
    t.selected = Some(8);
    t.page_down();
    assert_eq!(t.selected, Some(9));
    t.page_up();
    assert_eq!(t.selected, Some(6));
    t.selected = Some(1);
    t.scroll_offset = 4;
    t.page_up();
    assert_eq!(t.selected, Some(0));
    assert_eq!(t.scroll_offset, 0);
}

#[test]
fn visible_rows_and_range() {
    let mut t = nav(10, 3);
    t.update_visible_rows(20);
    assert_eq!(t.visible_rows, 14);
    assert_eq!(t.visible_range(), (0, 10));
    t.update_visible_rows(6);
    assert_eq!(t.visible_rows, 1);
    t.scroll_offset = 4;
    assert_eq!(t.visible_range(), (4, 5));
}

#[test]
fn home_and_end() {
    let mut t = nav(10, 3);
    t.end();
    assert_eq!(t.selected, Some(9));
    assert_eq!(t.scroll_offset, 7);
    t.home();
    assert_eq!(t.selected, Some(0));
    assert_eq!(t.scroll_offset, 0);
    let mut small = nav(2, 5);
    small.end();
    assert_eq!(small.selected, Some(1));
    assert_eq!(small.scroll_offset, 0);
}

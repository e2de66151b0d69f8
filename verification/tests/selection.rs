use file_browser::selection::SelectionList;

fn list_of(n: usize) -> SelectionList<usize> {
    let mut list = SelectionList::new();
    list.set_items((0..n).collect());
    list
}

#[test]
fn new_list_is_empty_without_highlight() {
    let list: SelectionList<u8> = SelectionList::new();
    assert_eq!(list.len(), 0);
    assert_eq!(list.selected(), None);
    assert_eq!(list.selected_item(), None);
    assert!(list.items().is_empty());
}

#[test]
fn moves_on_empty_list_highlight_nothing() {
    let mut list: SelectionList<u8> = SelectionList::new();
    list.move_down();
    assert_eq!(list.selected(), None);
    list.move_up();
    assert_eq!(list.selected(), None);
    list.select_first();
    assert_eq!(list.selected(), None);
}

#[test]
fn move_down_from_nothing_takes_first() {
    let mut list = list_of(3);
    assert_eq!(list.selected(), None);
    list.move_down();
    assert_eq!(list.selected(), Some(0));
    assert_eq!(list.selected_item(), Some(&0));
}

#[test]
fn move_up_from_nothing_takes_last() {
    let mut list = list_of(3);
    list.move_up();
    assert_eq!(list.selected(), Some(2));
    assert_eq!(list.selected_item(), Some(&2));
}

#[test]
fn move_down_stops_at_last_item() {
    let mut list = list_of(3);
    for expected in [0, 1, 2, 2, 2] {
        list.move_down();
        assert_eq!(list.selected(), Some(expected));
    }
}

#[test]
fn move_up_stops_at_first_item() {
    let mut list = list_of(3);
    list.move_up();
    for expected in [1, 0, 0, 0] {
        list.move_up();
        assert_eq!(list.selected(), Some(expected));
    }
}

#[test]
fn select_first_resets_highlight() {
    let mut list = list_of(4);
    list.move_up();
    assert_eq!(list.selected(), Some(3));
    list.select_first();
    assert_eq!(list.selected(), Some(0));
}

#[test]
fn shorter_items_pull_highlight_back() {
    let mut list = list_of(5);
    list.move_up();
    assert_eq!(list.selected(), Some(4));
    list.set_items(vec![10, 11]);
    assert_eq!(list.selected(), Some(1));
    assert_eq!(list.selected_item(), Some(&11));
    list.set_items(vec![7, 8, 9]);
    assert_eq!(list.selected(), Some(1));
    list.set_items(Vec::new());
    assert_eq!(list.selected(), None);
    list.set_items(vec![1]);
    assert_eq!(list.selected(), None);
}

#[test]
fn highlight_is_always_in_range() {
    let mut list = list_of(3);
    let sizes = [0usize, 1, 4, 2, 0, 3];
    for (step, n) in sizes.iter().enumerate() {
        match step % 3 {
            0 => list.move_down(),
            1 => list.move_up(),
            _ => list.select_first(),
        }
        assert!(list.selected().map_or(true, |i| i < list.len()));
        list.move_down();
        list.move_down();
        assert!(list.selected().map_or(true, |i| i < list.len()));
        list.set_items((0..*n).collect());
        assert_eq!(list.len(), *n);
        assert!(list.selected().map_or(true, |i| i < list.len()));
        if *n == 0 {
            assert_eq!(list.selected(), None);
        }
    }
}

#[test]
fn down_then_up_cancel_inside_the_list() {
    let mut list = list_of(4);
    list.move_down();
    list.move_down();
    assert_eq!(list.selected(), Some(1));
    list.move_down();
    list.move_up();
    assert_eq!(list.selected(), Some(1));
    list.move_up();
    list.move_down();
    assert_eq!(list.selected(), Some(1));
}

use file_browser::fs::DirectoryEntry;
use file_browser::navigation::{DeletionPlan, NavigationState};

fn entry(path: &str, is_dir: bool) -> DirectoryEntry {
    DirectoryEntry { path: String::from(path), is_dir }
}

fn texts(items: &[&str]) -> Vec<String> {
    items.iter().map(|s| String::from(*s)).collect()
}

fn two_entries() -> NavigationState {
    let mut state = NavigationState::new();
    state.entries.set_items(vec![entry("/d/a.txt", false), entry("/d/b_dir", true)]);
    state
}

#[test]
fn new_navigation_state_is_empty() {
    let state = NavigationState::new();
    assert_eq!(state.entries.len(), 0);
    assert_eq!(state.entries.selected(), None);
    assert_eq!(state.queued.len(), 0);
}

#[test]
fn move_to_child_needs_a_highlight() {
    let state = two_entries();
    assert_eq!(state.move_to_child(), None);
}

#[test]
fn move_to_child_on_a_file_goes_nowhere() {
    let mut state = two_entries();
    state.entries.move_down();
    assert_eq!(state.entries.selected(), Some(0));
    assert_eq!(state.move_to_child(), None);
    assert_eq!(state.entries.selected(), Some(0));
}

#[test]
fn move_to_child_on_a_directory_goes_into_it() {
    let mut state = two_entries();
    state.entries.move_down();
    state.entries.move_down();
    assert_eq!(state.move_to_child(), Some(String::from("/d/b_dir")));
}

#[test]
fn move_to_parent_goes_to_the_parent() {
    assert_eq!(NavigationState::move_to_parent("/home/u"), Some(String::from("/home")));
    assert_eq!(NavigationState::move_to_parent("/home"), Some(String::from("/")));
    assert_eq!(NavigationState::move_to_parent("/home/u/"), Some(String::from("/home")));
}

#[test]
fn move_to_parent_of_a_root_goes_nowhere() {
    assert_eq!(NavigationState::move_to_parent("/"), None);
    assert_eq!(NavigationState::move_to_parent(""), None);
}

#[test]
fn entered_highlights_the_first_entry() {
    let mut state = two_entries();
    state.entries.move_up();
    assert_eq!(state.entries.selected(), Some(1));
    state.entered();
    assert_eq!(state.entries.selected(), Some(0));
    let mut empty = NavigationState::new();
    empty.entered();
    assert_eq!(empty.entries.selected(), None);
}

#[test]
fn toggle_queue_needs_a_highlight() {
    let mut state = two_entries();
    state.toggle_queue();
    assert_eq!(state.queued.len(), 0);
}

#[test]
fn toggle_queue_queues_the_highlighted_path() {
    let mut state = two_entries();
    state.entries.move_down();
    state.toggle_queue();
    assert_eq!(state.queued.paths(), &texts(&["/d/a.txt"]));
    state.entries.move_down();
    state.toggle_queue();
    assert_eq!(state.queued.paths(), &texts(&["/d/a.txt", "/d/b_dir"]));
}

#[test]
fn toggle_queue_twice_restores_the_queue() {
    let mut state = two_entries();
    state.entries.move_down();
    state.toggle_queue();
    state.entries.move_down();
    let before: Vec<String> = state.queued.paths().clone();
    state.toggle_queue();
    state.toggle_queue();
    assert_eq!(state.queued.paths(), &before);
    state.entries.move_up();
    state.toggle_queue();
    state.toggle_queue();
    let mut after: Vec<String> = state.queued.paths().clone();
    after.sort();
    assert_eq!(after, before);
    assert_eq!(state.entries.selected(), Some(0));
}

#[test]
fn queue_outlives_a_new_listing() {
    let mut state = two_entries();
    state.entries.move_down();
    state.toggle_queue();
    state.entries.set_items(vec![entry("/e/x", false)]);
    assert!(state.queued.contains("/d/a.txt"));
    assert_eq!(state.queued.len(), 1);
}

#[test]
fn delete_queued_orders_by_name_descending() {
    let mut state = NavigationState::new();
    for path in ["/d/b", "/d/a", "/d/c"] {
        state.queued.toggle(String::from(path));
    }
    assert_eq!(
        state.delete_queued("/d"),
        DeletionPlan { leave_to: None, items: texts(&["/d/c", "/d/b", "/d/a"]) }
    );
}

#[test]
fn delete_queued_leaves_a_queued_working_directory() {
    let mut state = NavigationState::new();
    for path in ["/d/a", "/d", "/d/z"] {
        state.queued.toggle(String::from(path));
    }
    assert_eq!(
        state.delete_queued("/d"),
        DeletionPlan { leave_to: Some(String::from("/")), items: texts(&["/d/z", "/d", "/d/a"]) }
    );
}

#[test]
fn delete_queued_of_a_queued_root_stays() {
    let mut state = NavigationState::new();
    state.queued.toggle(String::from("/"));
    assert_eq!(state.delete_queued("/"), DeletionPlan { leave_to: None, items: texts(&["/"]) });
}

#[test]
fn delete_queued_of_nothing_plans_nothing() {
    let state = NavigationState::new();
    assert_eq!(state.delete_queued("/d"), DeletionPlan { leave_to: None, items: Vec::new() });
}

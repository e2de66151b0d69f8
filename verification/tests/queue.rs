use file_browser::queue::{same_text, QueuedSet};

fn texts(items: &[&str]) -> Vec<String> {
    items.iter().map(|s| String::from(*s)).collect()
}

#[test]
fn same_text_compares_scalar_values() {
    assert!(same_text("", ""));
    assert!(same_text("/home/u", "/home/u"));
    assert!(same_text("とラ", "とラ"));
    assert!(!same_text("/home/u", "/home/v"));
    assert!(!same_text("/home/u", "/home/u/"));
    assert!(!same_text("", "a"));
    assert!(!same_text("とラ", "とル"));
}

#[test]
fn new_queue_is_empty() {
    let queue = QueuedSet::new();
    assert_eq!(queue.len(), 0);
    assert!(queue.paths().is_empty());
    assert!(!queue.contains("/d/a"));
    assert_eq!(queue.deletion_order(), Vec::<String>::new());
}

#[test]
fn toggle_puts_in_and_takes_out() {
    let mut queue = QueuedSet::new();
    queue.toggle(String::from("/d/a"));
    assert!(queue.contains("/d/a"));
    assert_eq!(queue.len(), 1);
    queue.toggle(String::from("/d/b"));
    assert_eq!(queue.paths(), &texts(&["/d/a", "/d/b"]));
    queue.toggle(String::from("/d/a"));
    assert!(!queue.contains("/d/a"));
    assert!(queue.contains("/d/b"));
    assert_eq!(queue.paths(), &texts(&["/d/b"]));
}

#[test]
fn toggle_twice_restores_the_set() {
    let mut queue = QueuedSet::new();
    for path in ["/d/a", "/d/b", "/d/c"] {
        queue.toggle(String::from(path));
    }
    let mut before: Vec<String> = queue.paths().clone();
    before.sort();
    for path in ["/d/b", "/d/new", "/d/a", "/d/c"] {
        queue.toggle(String::from(path));
        queue.toggle(String::from(path));
        let mut after: Vec<String> = queue.paths().clone();
        after.sort();
        assert_eq!(after, before);
    }
}

#[test]
fn toggle_twice_of_new_path_restores_the_queue() {
    let mut queue = QueuedSet::new();
    queue.toggle(String::from("/d/b"));
    queue.toggle(String::from("/d/a"));
    queue.toggle(String::from("/d/new"));
    queue.toggle(String::from("/d/new"));
    assert_eq!(queue.paths(), &texts(&["/d/b", "/d/a"]));
}

#[test]
fn queue_never_holds_a_path_twice() {
    let mut queue = QueuedSet::new();
    for path in ["/a", "/b", "/a", "/c", "/b", "/a", "/a", "/c", "/c"] {
        queue.toggle(String::from(path));
        let mut paths: Vec<String> = queue.paths().clone();
        let n = paths.len();
        paths.sort();
        paths.dedup();
        assert_eq!(paths.len(), n);
        assert_eq!(queue.len(), n);
    }
    assert_eq!(queue.paths(), &texts(&["/c"]));
}

#[test]
fn remove_takes_out_only_the_path() {
    let mut queue = QueuedSet::new();
    for path in ["/d/a", "/d/b", "/d/c"] {
        queue.toggle(String::from(path));
    }
    queue.remove("/d/b");
    assert_eq!(queue.paths(), &texts(&["/d/a", "/d/c"]));
    queue.remove("/d/missing");
    assert_eq!(queue.paths(), &texts(&["/d/a", "/d/c"]));
    queue.remove("/d/a");
    queue.remove("/d/c");
    assert_eq!(queue.len(), 0);
}

#[test]
fn queue_deletion_order() {
    let mut queue = QueuedSet::new();
    for path in ["/d/b", "/d/a", "/d/c"] {
        queue.toggle(String::from(path));
    }
    assert_eq!(queue.deletion_order(), texts(&["/d/c", "/d/b", "/d/a"]));
    assert_eq!(queue.paths(), &texts(&["/d/b", "/d/a", "/d/c"]));
}

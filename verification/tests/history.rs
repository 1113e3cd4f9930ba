use cedilla::history::{History, MAX_SNAPSHOTS};

#[test]
fn history_of_an_opened_document() {
    let mut history = History::opened(String::from("one"));
    assert_eq!((history.len(), history.position()), (1, 0));
    assert_eq!(history.undo(), None);
    assert_eq!(history.redo(), None);
}

#[test]
fn undo_and_redo_walk_the_snapshots() {
    let mut history = History::opened(String::from("one"));
    history.record(String::from("two"));
    history.record(String::from("three"));
    assert_eq!((history.len(), history.position()), (3, 2));
    assert_eq!(history.undo(), Some((String::from("two"), true)));
    assert_eq!(history.undo(), Some((String::from("one"), false)));
    assert_eq!(history.undo(), None);
    assert_eq!(history.redo(), Some(String::from("two")));
    assert_eq!(history.redo(), Some(String::from("three")));
    assert_eq!(history.redo(), None);
}

#[test]
fn an_edit_after_undo_drops_what_was_undone() {
    let mut history = History::opened(String::from("one"));
    history.record(String::from("two"));
    history.record(String::from("three"));
    let _ = history.undo();
    let _ = history.undo();
    history.record(String::from("other"));
    assert_eq!((history.len(), history.position()), (2, 1));
    assert_eq!(history.redo(), None);
    assert_eq!(history.undo(), Some((String::from("one"), false)));
}

#[test]
fn history_of_a_new_document() {
    let mut history = History::new();
    assert_eq!((history.len(), history.position()), (0, 0));
    assert_eq!(history.undo(), None);
    history.record(String::from("a"));
    assert_eq!((history.len(), history.position()), (1, 0));
    assert_eq!(history.undo(), None);
}

#[test]
fn only_the_last_hundred_snapshots_are_kept() {
    let mut history = History::new();
    for i in 0..MAX_SNAPSHOTS {
        history.record(format!("{}", i));
    }
    assert_eq!((history.len(), history.position()), (100, 99));
    history.record(String::from("100"));
    assert_eq!((history.len(), history.position()), (100, 100));
    assert_eq!(history.redo(), None);
    assert_eq!(history.undo(), Some((String::from("100"), true)));
    assert_eq!(history.undo(), Some((String::from("99"), true)));
    history.record(String::from("again"));
    assert_eq!((history.len(), history.position()), (100, 99));
}

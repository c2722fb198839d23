use clipbox::clipboard::{ClipboardManager, InMemoryClipboardHistory};

#[test]
fn added_text_is_found_and_first() {
    let mut history = InMemoryClipboardHistory::new_manager();
    for t in ["p", "q", "r"] {
        history.add_text(t.to_string());
        assert!(history.exists_text(t));
        assert_eq!(history.first().unwrap().text, t);
    }
}

#[test]
fn move_to_top_keeps_every_entry_once() {
    let mut history = InMemoryClipboardHistory::new_manager();
    for t in ["a", "b", "c", "d"] {
        history.add_text(t.to_string());
    }
    history.move_to_top("b").unwrap();
    let mut all: Vec<String> = history.list().unwrap().into_iter().map(|i| i.text).collect();
    assert_eq!(all[0], "b");
    all.sort();
    assert_eq!(all, vec!["a", "b", "c", "d"]);
}

#[test]
fn delete_removes_exactly_one_entry() {
    let mut history = InMemoryClipboardHistory::new_manager();
    for t in ["a", "b", "a", "c"] {
        history.add_text(t.to_string());
    }
    let before = history.list().unwrap().len();
    history.delete("a").unwrap();
    assert_eq!(history.list().unwrap().len(), before - 1);
}

#[test]
fn delete_right_after_add_restores_the_history() {
    let mut history = InMemoryClipboardHistory::new_manager();
    history.add_text("a".to_string());
    history.add_text("b".to_string());
    history.add_text("c".to_string());
    assert_eq!(history.delete("c"), Ok(0));
    let all: Vec<String> = history.list().unwrap().into_iter().map(|i| i.text).collect();
    assert_eq!(all, vec!["b", "a"]);
}

#[test]
fn moving_the_first_entry_changes_nothing() {
    let mut history = InMemoryClipboardHistory::new_manager();
    history.add_text("a".to_string());
    history.add_text("b".to_string());
    history.move_to_top("b").unwrap();
    let all: Vec<String> = history.list().unwrap().into_iter().map(|i| i.text).collect();
    assert_eq!(all, vec!["b", "a"]);
}

#[test]
fn cleared_history_holds_nothing() {
    let mut history = InMemoryClipboardHistory::new_manager();
    history.add_text("a".to_string());
    history.clear().unwrap();
    assert!(!history.exists_text("a"));
    assert!(history.first().is_none());
}

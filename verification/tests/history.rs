use clipbox::clipboard::{
    ClipboardError, ClipboardItem, ClipboardManager, InMemoryClipboardHistory, MAX_ITEMS,
};

const HELLO_DIGEST: &str = "[93, 65, 64, 42, 188, 75, 42, 118, 185, 113, 157, 145, 16, 23, 197, 146]";

fn texts(history: &InMemoryClipboardHistory) -> Vec<String> {
    history.list().unwrap().into_iter().map(|item| item.text).collect()
}

#[test]
fn new_manager_is_empty() {
    let history = InMemoryClipboardHistory::new_manager();
    assert!(history.first().is_none());
    assert!(history.list().unwrap().is_empty());
    assert!(!history.exists_text("hello"));
}

#[test]
fn add_text_returns_the_item_with_its_md5_digest() {
    let mut history = InMemoryClipboardHistory::new_manager();
    let item = history.add_text("hello".to_string()).unwrap();
    assert_eq!(item.text, "hello");
    assert_eq!(item.hash, HELLO_DIGEST);
    let first = history.first().unwrap();
    assert_eq!(first.text, "hello");
    assert_eq!(first.hash, HELLO_DIGEST);
}

#[test]
fn add_empty_text_is_ignored() {
    let mut history = InMemoryClipboardHistory::new_manager();
    history.add_text("a".to_string());
    assert!(history.add_text(String::new()).is_none());
    assert_eq!(texts(&history), vec!["a".to_string()]);
}

#[test]
fn newest_text_comes_first() {
    let mut history = InMemoryClipboardHistory::new_manager();
    history.add_text("one".to_string());
    history.add_text("two".to_string());
    history.add_text("three".to_string());
    assert_eq!(texts(&history), vec!["three", "two", "one"]);
}

#[test]
fn history_is_capped_and_drops_the_oldest() {
    let mut history = InMemoryClipboardHistory::new_manager();
    for i in 0..(MAX_ITEMS + 5) {
        history.add_text(format!("item {i}"));
    }
    let all = texts(&history);
    assert_eq!(all.len(), 120);
    assert_eq!(all[0], format!("item {}", MAX_ITEMS + 4));
    assert_eq!(all[119], "item 5");
    assert!(!history.exists_text("item 4"));
    assert!(history.exists_text("item 5"));
}

#[test]
fn list_items_carry_the_digest_of_their_text() {
    let mut history = InMemoryClipboardHistory::new_manager();
    history.add_text("hello".to_string());
    history.add_text("world".to_string());
    let items: Vec<ClipboardItem> = history.list().unwrap();
    assert_eq!(items[1].hash, HELLO_DIGEST);
    assert_ne!(items[0].hash, HELLO_DIGEST);
    assert_eq!(items[0].hash.len(), items[0].hash.trim().len());
    assert!(items[0].hash.starts_with('['));
}

#[test]
fn clear_empties_the_history() {
    let mut history = InMemoryClipboardHistory::new_manager();
    history.add_text("a".to_string());
    history.add_text("b".to_string());
    assert_eq!(history.clear(), Ok(()));
    assert!(history.first().is_none());
    assert!(!history.exists_text("a"));
}

#[test]
fn delete_returns_the_position_removed() {
    let mut history = InMemoryClipboardHistory::new_manager();
    history.add_text("a".to_string());
    history.add_text("b".to_string());
    history.add_text("c".to_string());
    assert_eq!(history.delete("b"), Ok(1));
    assert_eq!(texts(&history), vec!["c", "a"]);
    assert_eq!(history.delete("c"), Ok(0));
    assert_eq!(texts(&history), vec!["a"]);
}

#[test]
fn delete_of_a_missing_text_is_item_not_found() {
    let mut history = InMemoryClipboardHistory::new_manager();
    history.add_text("a".to_string());
    assert_eq!(history.delete("zzz"), Err(ClipboardError::ItemNotFound));
    assert_eq!(texts(&history), vec!["a"]);
}

#[test]
fn delete_removes_only_the_first_duplicate() {
    let mut history = InMemoryClipboardHistory::new_manager();
    history.add_text("a".to_string());
    history.add_text("b".to_string());
    history.add_text("a".to_string());
    assert_eq!(history.delete("a"), Ok(0));
    assert_eq!(texts(&history), vec!["b", "a"]);
    assert!(history.exists_text("a"));
}

#[test]
fn move_to_top_reorders_without_losing_entries() {
    let mut history = InMemoryClipboardHistory::new_manager();
    history.add_text("a".to_string());
    history.add_text("b".to_string());
    history.add_text("c".to_string());
    assert_eq!(history.move_to_top("a"), Ok(()));
    assert_eq!(texts(&history), vec!["a", "c", "b"]);
    assert_eq!(history.first().unwrap().text, "a");
    assert_eq!(history.move_to_top("a"), Ok(()));
    assert_eq!(texts(&history), vec!["a", "c", "b"]);
}

#[test]
fn move_to_top_of_a_missing_text_is_item_not_found() {
    let mut history = InMemoryClipboardHistory::new_manager();
    history.add_text("a".to_string());
    assert_eq!(history.move_to_top("b"), Err(ClipboardError::ItemNotFound));
    assert_eq!(texts(&history), vec!["a"]);
}

#[test]
fn exists_agrees_with_delete_and_move_to_top() {
    let mut history = InMemoryClipboardHistory::new_manager();
    history.add_text("x".to_string());
    assert!(history.exists_text("x"));
    assert!(history.move_to_top("x").is_ok());
    assert!(!history.exists_text("y"));
    assert!(history.move_to_top("y").is_err());
    assert!(history.delete("y").is_err());
    assert!(history.delete("x").is_ok());
    assert!(!history.exists_text("x"));
}

#[test]
fn cloned_item_keeps_text_and_digest() {
    let mut history = InMemoryClipboardHistory::new_manager();
    let item = history.add_text("hello".to_string()).unwrap();
    let copy = item.clone();
    assert_eq!(copy.text, item.text);
    assert_eq!(copy.hash, item.hash);
}

#[test]
fn clipboard_error_messages() {
    assert_eq!(ClipboardError::PoisonError.message(), "Clipboard poisoned");
    assert_eq!(ClipboardError::ItemNotFound.message(), "Item not found");
}

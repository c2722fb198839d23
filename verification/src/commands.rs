use vstd::prelude::*;
use crate::clipboard::{
    contains_hash, is_first_match, moved_to_front, text_digest, with_new_entry, ClipboardItem,
    ClipboardManager,
};

verus! {

/// Every entry of the history, the most recent first, for the picker.
pub fn fetch_clipboard<T: ClipboardManager>(history: &T) -> (items: Vec<ClipboardItem>)
    requires
        history.wf(),
    ensures
        items@.len() == history.entries().len(),
        forall|i: int| 0 <= i < items@.len() ==> #[trigger] items@[i].represents(history.entries()[i]),
{
    match history.list() {
        Ok(items) => items,
        Err(_) => Vec::new(),
    }
}

/// What the application does after an entry was deleted from the picker.
pub struct DeleteOutcome {
    /// Tell the picker that the history changed.
    pub emit_changed: bool,
    /// Text to write to the system clipboard: the new most recent entry, when
    /// the deleted entry was the most recent one.
    pub clipboard_text: Option<String>,
}

/// Deletes the entry for `text` chosen in the picker and says what to do next.
pub fn delete_item<T: ClipboardManager>(history: &mut T, text: String) -> (out: DeleteOutcome)
    requires
        old(history).wf(),
    ensures
        final(history).wf(),
        text@.len() == 0 || !contains_hash(old(history).entries(), text_digest(text@)) ==> {
            &&& !out.emit_changed
            &&& out.clipboard_text is None
            &&& final(history).entries() == old(history).entries()
        },
        text@.len() > 0 && contains_hash(old(history).entries(), text_digest(text@)) ==> {
            &&& out.emit_changed
            &&& exists|i: int|
                #[trigger] is_first_match(old(history).entries(), text_digest(text@), i) && {
                    &&& final(history).entries() == old(history).entries().remove(i)
                    &&& if i == 0 && final(history).entries().len() > 0 {
                        out.clipboard_text matches Some(t) && t@ == final(history).entries()[0]
                    } else {
                        out.clipboard_text is None
                    }
                }
        },
{
    if text.as_str().is_empty() {
        return DeleteOutcome { emit_changed: false, clipboard_text: None };
    }
    let item_idx = match history.delete(text.as_str()) {
        Ok(idx) => idx,
        Err(_) => {
            return DeleteOutcome { emit_changed: false, clipboard_text: None };
        },
    };
    if item_idx == 0 {
        match history.first() {
            Some(item) => DeleteOutcome { emit_changed: true, clipboard_text: Some(item.text) },
            None => DeleteOutcome { emit_changed: true, clipboard_text: None },
        }
    } else {
        DeleteOutcome { emit_changed: true, clipboard_text: None }
    }
}

/// Whether the process with the focus, `active_pid`, is this application,
/// `own_pid`: copies made inside the picker are not recorded.
pub fn is_own_window(active_pid: i32, own_pid: u32) -> (own: bool)
    ensures
        own == (active_pid as u32 == own_pid),
{
    active_pid as u32 == own_pid
}

/// Records text that was just copied: a text already present moves to the
/// front, a new one is added. Returns whether the picker must be told that
/// the history changed.
pub fn record_clipboard_text<T: ClipboardManager>(history: &mut T, text: String) -> (emit: bool)
    requires
        old(history).wf(),
    ensures
        final(history).wf(),
        contains_hash(old(history).entries(), text_digest(text@)) ==> {
            &&& !emit
            &&& exists|i: int|
                #[trigger] is_first_match(old(history).entries(), text_digest(text@), i)
                    && final(history).entries() == moved_to_front(old(history).entries(), i)
        },
        !contains_hash(old(history).entries(), text_digest(text@)) ==> {
            &&& emit == (text@.len() > 0)
            &&& text@.len() > 0 ==> final(history).entries() == with_new_entry(
                old(history).entries(),
                text@,
            )
            &&& text@.len() == 0 ==> final(history).entries() == old(history).entries()
        },
{
    if history.exists_text(text.as_str()) {
        let _ = history.move_to_top(text.as_str());
        return false;
    }
    history.add_text(text).is_some()
}

} // verus!

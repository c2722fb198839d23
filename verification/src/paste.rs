use vstd::prelude::*;
use crate::clipboard::{
    contains_hash, is_first_match, moved_to_front, text_digest, ClipboardItem, ClipboardManager,
};

verus! {

/// Why pasting an entry failed.
#[derive(Debug, Clone, Copy, PartialEq, Eq, Structural)]
pub enum PasteError {
    /// Writing the text to the system clipboard failed.
    ClipboardError,
    /// No entry of the history has the digest of the text.
    ItemNotFound,
    /// Hiding the picker window failed.
    WindowError,
}

impl PasteError {
    /// The message shown for this error.
    pub fn message(&self) -> (m: String)
        ensures
            m@ == match self {
                PasteError::ClipboardError => "Clipboard error"@,
                PasteError::ItemNotFound => "Item not found"@,
                PasteError::WindowError => "Window error"@,
            },
    {
        match self {
            PasteError::ClipboardError => String::from_str("Clipboard error"),
            PasteError::ItemNotFound => String::from_str("Item not found"),
            PasteError::WindowError => String::from_str("Window error"),
        }
    }
}

/// The application that had the focus before the picker opened.
pub struct AppInfo {
    pub pid: i32,
}

/// Remembers which application to give the focus back to when pasting.
pub struct PasteState {
    target: AppInfo,
}

impl PasteState {
    /// The process id remembered as the paste target.
    pub closed spec fn remembered_pid(&self) -> i32 {
        self.target.pid
    }

    /// No target yet: the remembered process id is 0.
    pub fn new() -> (s: Self)
        ensures
            s.remembered_pid() == 0,
    {
        PasteState { target: AppInfo { pid: 0 } }
    }

    /// Remembers `active_pid`, the process that has the focus now, as the
    /// paste target.
    pub fn load_focused_window(&mut self, active_pid: i32)
        ensures
            final(self).remembered_pid() == active_pid,
    {
        self.target.pid = active_pid;
    }

    /// The process to give the focus back to before pasting.
    pub fn activate_last_focused_window(&self) -> (pid: i32)
        ensures
            pid == self.remembered_pid(),
    {
        self.target.pid
    }
}

/// What happened since the last step of a paste.
pub enum PasteEvent {
    /// The user chose a text to paste.
    Requested,
    /// The text was written to the system clipboard (`true`) or not.
    ClipboardWritten(bool),
    /// The picker window was hidden, or there was none (`true`), or hiding failed.
    WindowHidden(bool),
}

/// What the application does next in a paste.
#[derive(Debug)]
pub enum PasteAction {
    /// Write the text to the system clipboard, then report `ClipboardWritten`.
    WriteClipboard,
    /// Hide the picker window, then report `WindowHidden`.
    HideWindow,
    /// Give the focus back to the paste target, send the paste keystroke, and
    /// answer with this entry.
    Finish(ClipboardItem),
    /// Stop, answering with this error.
    Fail(PasteError),
}

/// One step of pasting `text` from the history: given what happened, updates
/// the history and says what to do next.
pub fn paste_step<T: ClipboardManager>(history: &mut T, text: &str, event: PasteEvent) -> (action:
    PasteAction)
    requires
        old(history).wf(),
        event matches PasteEvent::WindowHidden(ok) && ok ==> old(history).entries().len() > 0,
    ensures
        final(history).wf(),
        match event {
            PasteEvent::Requested => {
                &&& final(history).entries() == old(history).entries()
                &&& if contains_hash(old(history).entries(), text_digest(text@)) {
                    action is WriteClipboard
                } else {
                    action == PasteAction::Fail(PasteError::ItemNotFound)
                }
            },
            PasteEvent::ClipboardWritten(ok) => if ok {
                &&& action is HideWindow
                &&& contains_hash(old(history).entries(), text_digest(text@)) ==> exists|i: int|
                    #[trigger] is_first_match(old(history).entries(), text_digest(text@), i)
                        && final(history).entries() == moved_to_front(old(history).entries(), i)
                &&& !contains_hash(old(history).entries(), text_digest(text@))
                    ==> final(history).entries() == old(history).entries()
            } else {
                &&& action == PasteAction::Fail(PasteError::ClipboardError)
                &&& final(history).entries() == old(history).entries()
            },
            PasteEvent::WindowHidden(ok) => {
                &&& final(history).entries() == old(history).entries()
                &&& if ok {
                    action matches PasteAction::Finish(item) && item.represents(
                        old(history).entries()[0],
                    )
                } else {
                    action == PasteAction::Fail(PasteError::WindowError)
                }
            },
        },
{
    match event {
        PasteEvent::Requested => {
            if !history.exists_text(text) {
                return PasteAction::Fail(PasteError::ItemNotFound);
            }
            PasteAction::WriteClipboard
        },
        PasteEvent::ClipboardWritten(ok) => {
            if !ok {
                return PasteAction::Fail(PasteError::ClipboardError);
            }
            let _ = history.move_to_top(text);
            PasteAction::HideWindow
        },
        PasteEvent::WindowHidden(ok) => {
            if !ok {
                return PasteAction::Fail(PasteError::WindowError);
            }
            match history.first() {
                Some(item) => PasteAction::Finish(item),
                None => PasteAction::Fail(PasteError::ItemNotFound),
            }
        },
    }
}

} // verus!

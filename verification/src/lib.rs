//! Clipboard history: the verified core of a small clipboard manager.
//!
//! The history keeps the most recent text first, holds at most
//! [`clipboard::MAX_ITEMS`] entries, and finds entries by the MD5 digest of
//! their text.

pub mod clipboard;
pub mod laws;
pub mod paste;
pub mod commands;

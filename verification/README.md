# clipbox

The verified core of Clipbox, a clipboard history utility.

- `src/clipboard.rs`: the history (`InMemoryClipboardHistory`, behind the
  `ClipboardManager` trait), its entries and errors, and the MD5 digest by
  which entries are found. Contracts speak of the history as a sequence of
  texts, the most recent first, capped at 120 entries.
- `src/commands.rs`: what the application decides around the history
  (recording a copied text, deleting from the picker, listing).
- `src/paste.rs`: the paste target and the steps of a paste.
- `src/laws.rs`: properties that span operations, proved.
- `app/`: the Tauri side (commands, listener, windows, shortcuts, tray),
  which calls the library.
- `tests/`: tests run against the compiled library.

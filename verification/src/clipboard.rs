use md5::{Digest, Md5};
use vstd::prelude::*;

verus! {

/// The number of entries that the history keeps; adding to a full history
/// drops its oldest entry.
pub const MAX_ITEMS: usize = 120;

/// Why an operation on the clipboard history failed.
#[derive(Debug, Clone, Copy, PartialEq, Eq, Structural)]
pub enum ClipboardError {
    /// The store that holds the history could not be reached.
    PoisonError,
    /// No entry of the history has the digest of the text asked for.
    ItemNotFound,
}

impl ClipboardError {
    /// The message shown for this error.
    pub fn message(&self) -> (m: String)
        ensures
            m@ == match self {
                ClipboardError::PoisonError => "Clipboard poisoned"@,
                ClipboardError::ItemNotFound => "Item not found"@,
            },
    {
        match self {
            ClipboardError::PoisonError => String::from_str("Clipboard poisoned"),
            ClipboardError::ItemNotFound => String::from_str("Item not found"),
        }
    }
}

/// What MD5 of the UTF-8 encoding of `text` gives, written as the `Debug`
/// form of its 16 bytes (such as `[93, 65, 64, ...]`).
pub uninterp spec fn text_digest(text: Seq<char>) -> Seq<char>;

/// Calls `md5::Md5::digest` (the `digest::Digest` trait) on the UTF-8 bytes of
/// `text` and renders the 16-byte output with its `Debug` format. The contract
/// claims only that the result is a function of the text, named `text_digest`.
#[verifier::external_body]
fn md5_text_digest(text: &str) -> (h: String)
    ensures
        h@ == text_digest(text@),
{
    format!("{:?}", Md5::digest(text.as_bytes()))
}

/// One entry of the history: a copied text and its digest.
#[derive(Debug)]
pub struct ClipboardItem {
    pub text: String,
    pub hash: String,
}

impl ClipboardItem {
    /// The item holds `text` and the digest of `text`.
    pub open spec fn represents(&self, text: Seq<char>) -> bool {
        &&& self.text@ == text
        &&& self.hash@ == text_digest(text)
    }
}

impl Clone for ClipboardItem {
    fn clone(&self) -> (res: Self)
        ensures
            res.text@ == self.text@,
            res.hash@ == self.hash@,
    {
        ClipboardItem { text: self.text.clone(), hash: self.hash.clone() }
    }
}


/// Whether some entry of `entries` has the digest `h`.
pub open spec fn contains_hash(entries: Seq<Seq<char>>, h: Seq<char>) -> bool {
    exists|i: int| 0 <= i < entries.len() && #[trigger] text_digest(entries[i]) == h
}

/// `i` is the first position of `entries` whose entry has the digest `h`.
pub open spec fn is_first_match(entries: Seq<Seq<char>>, h: Seq<char>, i: int) -> bool {
    &&& 0 <= i < entries.len()
    &&& text_digest(entries[i]) == h
    &&& forall|j: int| 0 <= j < i ==> #[trigger] text_digest(entries[j]) != h
}

/// The entries after `text` is recorded: `text` comes first, and the oldest
/// entry leaves when the history was full.
pub open spec fn with_new_entry(entries: Seq<Seq<char>>, text: Seq<char>) -> Seq<Seq<char>> {
    let kept = if entries.len() + 1 > MAX_ITEMS {
        entries.drop_last()
    } else {
        entries
    };
    kept.insert(0, text)
}

/// The entries after the one at `i` is moved to the front, the others keeping
/// their order.
pub open spec fn moved_to_front(entries: Seq<Seq<char>>, i: int) -> Seq<Seq<char>> {
    entries.remove(i).insert(0, entries[i])
}

/// A clipboard history: texts, the most recent first, each found by its digest.
pub trait ClipboardManager: Sized {
    /// The history's internal invariant.
    spec fn wf(&self) -> bool;

    /// The texts of the history, the most recent first.
    spec fn entries(&self) -> Seq<Seq<char>>;

    /// What the invariant gives callers: at most `MAX_ITEMS` entries, none empty.
    proof fn lemma_wf(&self)
        requires
            self.wf(),
        ensures
            self.entries().len() <= MAX_ITEMS,
            forall|i: int| 0 <= i < self.entries().len() ==> #[trigger] self.entries()[i].len() > 0,
    ;

    /// An empty history.
    fn new_manager() -> (m: Self)
        ensures
            m.wf(),
            m.entries() == Seq::<Seq<char>>::empty(),
    ;

    /// Records `text` as the most recent entry and returns it; an empty text
    /// is ignored.
    fn add_text(&mut self, text: String) -> (r: Option<ClipboardItem>)
        requires
            old(self).wf(),
        ensures
            final(self).wf(),
            text@.len() == 0 ==> r is None && final(self).entries() == old(self).entries(),
            text@.len() > 0 ==> final(self).entries() == with_new_entry(old(self).entries(), text@),
            text@.len() > 0 ==> (r matches Some(item) && item.represents(text@)),
    ;

    /// Removes every entry.
    fn clear(&mut self) -> (r: Result<(), ClipboardError>)
        requires
            old(self).wf(),
        ensures
            final(self).wf(),
            r is Ok,
            final(self).entries() == Seq::<Seq<char>>::empty(),
    ;

    /// The most recent entry, if there is one.
    fn first(&self) -> (r: Option<ClipboardItem>)
        requires
            self.wf(),
        ensures
            self.entries().len() == 0 ==> r is None,
            self.entries().len() > 0 ==> (r matches Some(item) && item.represents(self.entries()[0])),
    ;

    /// Every entry, the most recent first.
    fn list(&self) -> (r: Result<Vec<ClipboardItem>, ClipboardError>)
        requires
            self.wf(),
        ensures
            r matches Ok(items) && items@.len() == self.entries().len() && (forall|i: int|
                0 <= i < items@.len() ==> #[trigger] items@[i].represents(self.entries()[i])),
    ;

    /// Removes the first entry that has the digest of `text` and returns its
    /// position; `ItemNotFound` when there is none.
    fn delete(&mut self, text: &str) -> (r: Result<usize, ClipboardError>)
        requires
            old(self).wf(),
        ensures
            final(self).wf(),
            r is Ok <==> contains_hash(old(self).entries(), text_digest(text@)),
            r matches Ok(idx) ==> is_first_match(old(self).entries(), text_digest(text@), idx as int)
                && final(self).entries() == old(self).entries().remove(idx as int),
            r matches Err(e) ==> e == ClipboardError::ItemNotFound && final(self).entries() == old(
                self,
            ).entries(),
    ;

    /// Whether some entry has the digest of `text`.
    fn exists_text(&self, text: &str) -> (r: bool)
        requires
            self.wf(),
        ensures
            r == contains_hash(self.entries(), text_digest(text@)),
    ;

    /// Moves the first entry that has the digest of `text` to the front;
    /// `ItemNotFound` when there is none.
    fn move_to_top(&mut self, text: &str) -> (r: Result<(), ClipboardError>)
        requires
            old(self).wf(),
        ensures
            final(self).wf(),
            r is Ok <==> contains_hash(old(self).entries(), text_digest(text@)),
            r is Ok ==> exists|i: int|
                #[trigger] is_first_match(old(self).entries(), text_digest(text@), i)
                    && final(self).entries() == moved_to_front(old(self).entries(), i),
            r matches Err(e) ==> e == ClipboardError::ItemNotFound && final(self).entries() == old(
                self,
            ).entries(),
    ;
}

/// The clipboard history kept in memory.
#[derive(Debug)]
pub struct InMemoryClipboardHistory {
    items: Vec<ClipboardItem>,
}

/// The invariant of each stored item: a non-empty text with its own digest.
pub open spec fn item_wf(item: ClipboardItem) -> bool {
    item.text@.len() > 0 && item.hash@ == text_digest(item.text@)
}

impl InMemoryClipboardHistory {
    /// Puts `item` first, dropping the oldest entry when the history is full.
    fn add_item(&mut self, item: ClipboardItem)
        requires
            old(self).wf(),
            item_wf(item),
        ensures
            final(self).wf(),
            final(self).entries() == with_new_entry(old(self).entries(), item.text@),
            final(self).items@[0] == item,
    {
        let ghost old_items = self.items@;
        if self.items.len() + 1 > MAX_ITEMS {
            self.items.pop();
        }
        self.items.insert(0, item);
        proof {
            let kept = if old_items.len() + 1 > MAX_ITEMS {
                old_items.drop_last()
            } else {
                old_items
            };
            assert(self.items@ == kept.insert(0, item));
            assert(self.entries() =~= with_new_entry(old_items.map_values(|it: ClipboardItem| it.text@), item.text@));
        }
    }

    /// The position of the first item whose digest is `h`.
    fn position_of_hash(&self, h: &String) -> (r: Option<usize>)
        requires
            self.wf(),
        ensures
            r matches Some(i) ==> is_first_match(self.entries(), h@, i as int),
            r is None ==> !contains_hash(self.entries(), h@),
    {
        let mut i: usize = 0;
        while i < self.items.len()
            invariant
                self.wf(),
                i <= self.items@.len(),
                forall|j: int| 0 <= j < i ==> #[trigger] text_digest(self.entries()[j]) != h@,
            decreases self.items@.len() - i,
        {
            assert(item_wf(self.items@[i as int]));
            if self.items[i].hash == *h {
                return Some(i);
            }
            i = i + 1;
        }
        proof {
            assert forall|j: int| 0 <= j < self.entries().len() implies #[trigger] text_digest(self.entries()[j]) != h@ by {}
        }
        None
    }

    /// The digest under which `text` is stored.
    fn hash(&self, text: &str) -> (h: String)
        ensures
            h@ == text_digest(text@),
    {
        md5_text_digest(text)
    }
}

impl ClipboardManager for InMemoryClipboardHistory {
    closed spec fn wf(&self) -> bool {
        &&& self.items@.len() <= MAX_ITEMS
        &&& forall|i: int| 0 <= i < self.items@.len() ==> #[trigger] item_wf(self.items@[i])
    }

    closed spec fn entries(&self) -> Seq<Seq<char>> {
        self.items@.map_values(|it: ClipboardItem| it.text@)
    }

    proof fn lemma_wf(&self) {
        assert forall|i: int| 0 <= i < self.entries().len() implies #[trigger] self.entries()[i].len() > 0 by {
            assert(item_wf(self.items@[i]));
        }
    }

    fn new_manager() -> (m: Self) {
        let m = InMemoryClipboardHistory { items: Vec::new() };
        assert(m.entries() =~= Seq::<Seq<char>>::empty());
        m
    }

    fn add_text(&mut self, text: String) -> (r: Option<ClipboardItem>) {
        if text.as_str().is_empty() {
            return None;
        }
        let hash = self.hash(text.as_str());
        let item = ClipboardItem { text, hash };
        self.add_item(item);
        self.first()
    }

    fn clear(&mut self) -> (r: Result<(), ClipboardError>) {
        self.items.clear();
        assert(self.entries() =~= Seq::<Seq<char>>::empty());
        Ok(())
    }

    fn first(&self) -> (r: Option<ClipboardItem>) {
        if self.items.len() == 0 {
            return None;
        }
        assert(item_wf(self.items@[0]));
        Some(self.items[0].clone())
    }

    fn list(&self) -> (r: Result<Vec<ClipboardItem>, ClipboardError>) {
        let mut out: Vec<ClipboardItem> = Vec::new();
        let mut i: usize = 0;
        while i < self.items.len()
            invariant
                self.wf(),
                i <= self.items@.len(),
                out@.len() == i,
                forall|j: int| 0 <= j < i ==> #[trigger] out@[j].represents(self.entries()[j]),
            decreases self.items@.len() - i,
        {
            assert(item_wf(self.items@[i as int]));
            out.push(self.items[i].clone());
            i = i + 1;
        }
        Ok(out)
    }

    fn exists_text(&self, text: &str) -> (r: bool) {
        let hash = self.hash(text);
        self.position_of_hash(&hash).is_some()
    }

    fn delete(&mut self, text: &str) -> (r: Result<usize, ClipboardError>) {
        let hash = self.hash(text);
        let idx = match self.position_of_hash(&hash) {
            Some(idx) => idx,
            None => return Err(ClipboardError::ItemNotFound),
        };
        let ghost old_items = self.items@;
        self.items.remove(idx);
        proof {
            assert forall|i: int| 0 <= i < self.items@.len() implies #[trigger] item_wf(self.items@[i]) by {
                if i < idx {
                    assert(self.items@[i] == old_items[i]);
                    assert(item_wf(old_items[i]));
                } else {
                    assert(self.items@[i] == old_items[i + 1]);
                    assert(item_wf(old_items[i + 1]));
                }
            }
            assert(self.entries() =~= old_items.map_values(|it: ClipboardItem| it.text@).remove(idx as int));
        }
        Ok(idx)
    }

    fn move_to_top(&mut self, text: &str) -> (r: Result<(), ClipboardError>) {
        let hash = self.hash(text);
        let idx = match self.position_of_hash(&hash) {
            Some(idx) => idx,
            None => return Err(ClipboardError::ItemNotFound),
        };
        let ghost old_items = self.items@;
        let ghost old_entries = self.entries();
        let item = self.items.remove(idx);
        self.items.insert(0, item);
        proof {
            assert forall|i: int| 0 <= i < self.items@.len() implies #[trigger] item_wf(self.items@[i]) by {
                if i == 0 {
                    assert(item_wf(old_items[idx as int]));
                } else if i <= idx {
                    assert(self.items@[i] == old_items[i - 1]);
                    assert(item_wf(old_items[i - 1]));
                } else {
                    assert(self.items@[i] == old_items[i]);
                    assert(item_wf(old_items[i]));
                }
            }
            assert(self.entries() =~= moved_to_front(old_entries, idx as int));
            assert(is_first_match(old_entries, text_digest(text@), idx as int));
        }
        Ok(())
    }
}

} // verus!

use vstd::prelude::*;
use crate::clipboard::{
    contains_hash, is_first_match, moved_to_front, text_digest, with_new_entry, MAX_ITEMS,
};

verus! {

/// Recording a text keeps the history within `MAX_ITEMS` entries, puts the
/// text first, keeps every earlier entry but the oldest (which leaves only
/// when the history was full), and makes the text found by its digest.
pub proof fn law_added_text_leads(entries: Seq<Seq<char>>, text: Seq<char>)
    requires
        entries.len() <= MAX_ITEMS,
    ensures
        with_new_entry(entries, text).len() <= MAX_ITEMS,
        with_new_entry(entries, text)[0] == text,
        entries.len() < MAX_ITEMS ==> with_new_entry(entries, text) == seq![text] + entries,
        entries.len() == MAX_ITEMS ==> with_new_entry(entries, text) == seq![text]
            + entries.drop_last(),
        contains_hash(with_new_entry(entries, text), text_digest(text)),
        is_first_match(with_new_entry(entries, text), text_digest(text), 0),
{
    let r = with_new_entry(entries, text);
    assert(text_digest(r[0]) == text_digest(text));
    if entries.len() < MAX_ITEMS {
        assert(r =~= seq![text] + entries);
    } else {
        assert(r =~= seq![text] + entries.drop_last());
    }
}

/// Moving an entry to the front keeps the same entries, each as often as
/// before: it only reorders the history.
pub proof fn law_move_to_front_reorders(entries: Seq<Seq<char>>, i: int)
    requires
        0 <= i < entries.len(),
    ensures
        moved_to_front(entries, i).len() == entries.len(),
        moved_to_front(entries, i).to_multiset() == entries.to_multiset(),
        moved_to_front(entries, i)[0] == entries[i],
        moved_to_front(entries, i).subrange(1, i + 1) == entries.subrange(0, i),
        moved_to_front(entries, i).subrange(i + 1, entries.len() as int) == entries.subrange(
            i + 1,
            entries.len() as int,
        ),
{
    broadcast use vstd::seq_lib::group_to_multiset_ensures;
    broadcast use vstd::multiset::group_multiset_axioms;

    let m = moved_to_front(entries, i);
    assert(m.to_multiset() == entries.remove(i).to_multiset().insert(entries[i]));
    assert(entries.remove(i).to_multiset() == entries.to_multiset().remove(entries[i]));
    assert(entries.to_multiset().count(entries[i]) > 0);
    assert(m.to_multiset() =~= entries.to_multiset());
    assert(m.subrange(1, i + 1) =~= entries.subrange(0, i));
    assert(m.subrange(i + 1, entries.len() as int) =~= entries.subrange(i + 1, entries.len() as int));
}

/// After the entry with digest `h` moves to the front, the most recent entry
/// has digest `h`.
pub proof fn law_moved_entry_is_first(entries: Seq<Seq<char>>, h: Seq<char>, i: int)
    requires
        is_first_match(entries, h, i),
    ensures
        text_digest(moved_to_front(entries, i)[0]) == h,
        is_first_match(moved_to_front(entries, i), h, 0),
{
}

/// Deleting removes exactly the one entry at the position deleted.
pub proof fn law_delete_removes_one(entries: Seq<Seq<char>>, i: int)
    requires
        0 <= i < entries.len(),
    ensures
        entries.remove(i).len() == entries.len() - 1,
        entries.remove(i).to_multiset() == entries.to_multiset().remove(entries[i]),
        entries.remove(i) == entries.subrange(0, i) + entries.subrange(i + 1, entries.len() as int),
{
    broadcast use vstd::seq_lib::group_to_multiset_ensures;

    assert(entries.remove(i) =~= entries.subrange(0, i) + entries.subrange(i + 1, entries.len() as int));
}

/// A digest has at most one first position, and it has one exactly when some
/// entry has that digest: so `exists_text`, `delete` and `move_to_top` agree
/// on which texts are present, and the position they act on is determined.
pub proof fn law_first_match_unique(entries: Seq<Seq<char>>, h: Seq<char>, i: int, j: int)
    requires
        is_first_match(entries, h, i),
        is_first_match(entries, h, j),
    ensures
        i == j,
{
    if i < j {
        assert(text_digest(entries[i]) != h);
    } else if j < i {
        assert(text_digest(entries[j]) != h);
    }
}

/// An entry at any position counts: when the entry at `i` has digest `h`, a
/// text with digest `h` is present (so `exists_text` answers true, and
/// `delete`, `move_to_top` and a paste find it), however long the entry and
/// wherever it stands.
pub proof fn law_any_position_counts(entries: Seq<Seq<char>>, h: Seq<char>, i: int)
    requires
        0 <= i < entries.len(),
        text_digest(entries[i]) == h,
    ensures
        contains_hash(entries, h),
{
}

/// A text is present only when some entry has its digest.
pub proof fn law_present_only_if_some_entry_matches(entries: Seq<Seq<char>>, h: Seq<char>)
    requires
        contains_hash(entries, h),
    ensures
        exists|i: int| 0 <= i < entries.len() && #[trigger] text_digest(entries[i]) == h,
{
}

/// The position that `delete` and `move_to_top` act on is the earliest entry
/// with the digest: it has the digest, and no entry with the digest comes
/// before it (any matching position `j` is at or after it).
pub proof fn law_first_match_is_earliest(entries: Seq<Seq<char>>, h: Seq<char>, i: int, j: int)
    requires
        is_first_match(entries, h, i),
        0 <= j < entries.len(),
        text_digest(entries[j]) == h,
    ensures
        0 <= i <= j,
        i < entries.len(),
        text_digest(entries[i]) == h,
{
    if j < i {
        assert(text_digest(entries[j]) != h);
    }
}

/// Some entry has digest `h` exactly when there is a first such entry.
pub proof fn law_contains_iff_first_match(entries: Seq<Seq<char>>, h: Seq<char>)
    ensures
        contains_hash(entries, h) <==> exists|i: int| #[trigger] is_first_match(entries, h, i),
    decreases entries.len(),
{
    if contains_hash(entries, h) {
        if text_digest(entries[0]) == h {
            assert(is_first_match(entries, h, 0));
        } else {
            let rest = entries.drop_first();
            let k = choose|k: int| 0 <= k < entries.len() && #[trigger] text_digest(entries[k]) == h;
            assert(text_digest(rest[k - 1]) == h);
            law_contains_iff_first_match(rest, h);
            let i = choose|i: int| #[trigger] is_first_match(rest, h, i);
            assert forall|j: int| 0 <= j < i + 1 implies #[trigger] text_digest(entries[j]) != h by {
                if j > 0 {
                    assert(entries[j] == rest[j - 1]);
                }
            }
            assert(is_first_match(entries, h, i + 1));
        }
    }
}

/// Deleting a text right after recording it undoes the recording when the
/// history was not full: the entry deleted is the one just added (position 0).
pub proof fn law_delete_undoes_add(entries: Seq<Seq<char>>, text: Seq<char>)
    requires
        entries.len() < MAX_ITEMS,
    ensures
        is_first_match(with_new_entry(entries, text), text_digest(text), 0),
        with_new_entry(entries, text).remove(0) == entries,
{
    assert(with_new_entry(entries, text).remove(0) =~= entries);
}

/// Moving the most recent entry to the front changes nothing: pasting or
/// re-copying the latest text leaves the history as it is.
pub proof fn law_move_first_is_identity(entries: Seq<Seq<char>>)
    requires
        entries.len() > 0,
    ensures
        moved_to_front(entries, 0) == entries,
{
    assert(moved_to_front(entries, 0) =~= entries);
}

/// Clearing leaves an empty history, so the most recent entry is gone and no
/// text is found.
pub proof fn law_empty_holds_nothing(h: Seq<char>)
    ensures
        !contains_hash(Seq::<Seq<char>>::empty(), h),
{
}

} // verus!

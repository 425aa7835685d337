use vstd::prelude::*;

use crate::comment::Comment;
use crate::model::{
    added, added_all, entries_with_id, has_id, ids_unique, last_with_id, lemma_added_unique,
    lemma_no_entry_with_id, lemma_remove_id_absent, lemma_remove_id_unique, remove_id,
};

verus! {

/// Right after a comment is saved, the cache holds exactly one entry with its
/// identifier, and looking that identifier up gives the comment.
pub proof fn saved_comment_is_listed_once(cache: Seq<Comment>, c: Comment)
    requires
        ids_unique(cache),
    ensures
        entries_with_id(added(cache, c), c.id) == seq![c],
        last_with_id(added(cache, c), c.id) == Some(c),
{
    lemma_added_unique(cache, c);
}

/// Deleting a comment right after saving it leaves no entry with its
/// identifier: looking it up finds nothing.
pub proof fn deleted_comment_is_gone(cache: Seq<Comment>, c: Comment)
    requires
        ids_unique(cache),
    ensures
        !has_id(remove_id(added(cache, c), c.id), c.id),
        entries_with_id(remove_id(added(cache, c), c.id), c.id) == Seq::<Comment>::empty(),
        last_with_id(remove_id(added(cache, c), c.id), c.id) == None::<Comment>,
{
    lemma_added_unique(cache, c);
    lemma_remove_id_unique(added(cache, c), c.id);
    lemma_no_entry_with_id(remove_id(added(cache, c), c.id), c.id);
}

/// Deleting a comment that was never saved finds nothing to remove and leaves
/// the cache as it was.
pub proof fn deleting_unknown_comment_changes_nothing(cache: Seq<Comment>, id: u128)
    requires
        !has_id(cache, id),
    ensures
        remove_id(cache, id) == cache,
        last_with_id(cache, id) == None::<Comment>,
{
    lemma_remove_id_absent(cache, id);
    lemma_no_entry_with_id(cache, id);
}

proof fn unique_ids_have_no_duplicates(s: Seq<Comment>)
    requires
        ids_unique(s),
    ensures
        s.no_duplicates(),
{
    assert forall|i: int, j: int| 0 <= i < s.len() && 0 <= j < s.len() && i != j implies s[i]
        != s[j] by {
        assert(s[i].id != s[j].id);
    }
}

/// Loading comments with unique identifiers into an empty cache gives them
/// back in their order.
proof fn added_all_unique_into_empty(cs: Seq<Comment>)
    requires
        ids_unique(cs),
    ensures
        added_all(Seq::<Comment>::empty(), cs) == cs,
    decreases cs.len(),
{
    if cs.len() > 0 {
        let front = cs.drop_last();
        assert(ids_unique(front)) by {
            assert forall|i: int, j: int|
                0 <= i < front.len() && 0 <= j < front.len() && i != j implies #[trigger] front[i].id
                != #[trigger] front[j].id by {
                assert(front[i] == cs[i] && front[j] == cs[j]);
            }
        }
        added_all_unique_into_empty(front);
        assert(!has_id(front, cs.last().id)) by {
            if has_id(front, cs.last().id) {
                let k = choose|k: int| 0 <= k < front.len() && #[trigger] front[k].id == cs.last().id;
                assert(cs[k].id == cs[cs.len() - 1].id);
            }
        }
        lemma_remove_id_absent(front, cs.last().id);
        assert(front.push(cs.last()) =~= cs);
    }
}

/// Comments read back from the documents of `saved`, in any order, fill a
/// fresh cache with the same comments: equal by identifier and content, and
/// nothing more or less.
pub proof fn reload_round_trip(saved: Seq<Comment>, loaded: Seq<Comment>)
    requires
        ids_unique(saved),
        loaded.to_multiset() == saved.to_multiset(),
    ensures
        ids_unique(added_all(Seq::<Comment>::empty(), loaded)),
        added_all(Seq::<Comment>::empty(), loaded).to_multiset() == saved.to_multiset(),
{
    broadcast use vstd::seq_lib::group_to_multiset_ensures;

    unique_ids_have_no_duplicates(saved);
    saved.lemma_multiset_has_no_duplicates();
    loaded.lemma_multiset_has_no_duplicates_conv();
    assert forall|i: int, j: int|
        0 <= i < loaded.len() && 0 <= j < loaded.len() && i != j implies #[trigger] loaded[i].id
        != #[trigger] loaded[j].id by {
        let x = loaded[i];
        let y = loaded[j];
        assert(x != y);
        assert(loaded.contains(x) && loaded.contains(y));
        vstd::seq_lib::to_multiset_contains(loaded, x);
        vstd::seq_lib::to_multiset_contains(loaded, y);
        vstd::seq_lib::to_multiset_contains(saved, x);
        vstd::seq_lib::to_multiset_contains(saved, y);
        assert(saved.contains(x) && saved.contains(y));
        let p = choose|p: int| 0 <= p < saved.len() && saved[p] == x;
        let q = choose|q: int| 0 <= q < saved.len() && saved[q] == y;
        assert(saved[p].id != saved[q].id);
    }
    added_all_unique_into_empty(loaded);
}

} // verus!

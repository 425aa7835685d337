use vstd::prelude::*;

use crate::comment::Comment;

verus! {

/// Some entry of `s` carries the identifier `id`.
pub open spec fn has_id(s: Seq<Comment>, id: u128) -> bool {
    exists|i: int| 0 <= i < s.len() && #[trigger] s[i].id == id
}

/// No two entries of `s` share an identifier.
pub open spec fn ids_unique(s: Seq<Comment>) -> bool {
    forall|i: int, j: int|
        0 <= i < s.len() && 0 <= j < s.len() && i != j ==> #[trigger] s[i].id != #[trigger] s[j].id
}

/// `s` without its first entry that carries `id` (all of `s` if none does).
pub open spec fn remove_id(s: Seq<Comment>, id: u128) -> Seq<Comment>
    decreases s.len(),
{
    if s.len() == 0 {
        s
    } else if s[0].id == id {
        s.drop_first()
    } else {
        seq![s[0]] + remove_id(s.drop_first(), id)
    }
}

/// The cache after adding `c`: an entry with the same identifier gives way,
/// and `c` goes last.
pub open spec fn added(s: Seq<Comment>, c: Comment) -> Seq<Comment> {
    remove_id(s, c.id).push(c)
}

/// The cache after adding each of `cs` in turn.
pub open spec fn added_all(s: Seq<Comment>, cs: Seq<Comment>) -> Seq<Comment>
    decreases cs.len(),
{
    if cs.len() == 0 {
        s
    } else {
        added(added_all(s, cs.drop_last()), cs.last())
    }
}

/// The last entry of `s` that carries `id`, if any.
pub open spec fn last_with_id(s: Seq<Comment>, id: u128) -> Option<Comment>
    decreases s.len(),
{
    if s.len() == 0 {
        None
    } else if s.last().id == id {
        Some(s.last())
    } else {
        last_with_id(s.drop_last(), id)
    }
}

/// The entries of `s` that carry `id`.
pub open spec fn entries_with_id(s: Seq<Comment>, id: u128) -> Seq<Comment> {
    s.filter(|c: Comment| c.id == id)
}

/// The entries of `s` posted against `path`, in the order of `s`.
pub open spec fn on_path(s: Seq<Comment>, path: Seq<char>) -> Seq<Comment> {
    s.filter(|c: Comment| c.path@ == path)
}

/// The entries of `s` are in ascending order of time.
pub open spec fn sorted_by_time(s: Seq<Comment>) -> bool {
    forall|i: int, j: int| 0 <= i < j < s.len() ==> #[trigger] s[i].timestamp <= #[trigger] s[j].timestamp
}

/// Removing the first entry with `id`, found at `i`, is removing index `i`.
pub proof fn lemma_remove_id_at(s: Seq<Comment>, id: u128, i: int)
    requires
        0 <= i < s.len(),
        s[i].id == id,
        forall|j: int| 0 <= j < i ==> #[trigger] s[j].id != id,
    ensures
        remove_id(s, id) == s.remove(i),
    decreases i,
{
    if i == 0 {
        assert(s.remove(0) =~= s.drop_first());
    } else {
        let t = s.drop_first();
        assert forall|j: int| 0 <= j < i - 1 implies #[trigger] t[j].id != id by {
            assert(t[j] == s[j + 1]);
        }
        lemma_remove_id_at(t, id, i - 1);
        assert(seq![s[0]] + t.remove(i - 1) =~= s.remove(i));
    }
}

/// Removing an identifier that no entry carries changes nothing.
pub proof fn lemma_remove_id_absent(s: Seq<Comment>, id: u128)
    requires
        !has_id(s, id),
    ensures
        remove_id(s, id) == s,
    decreases s.len(),
{
    if s.len() > 0 {
        assert(s[0].id != id);
        let t = s.drop_first();
        assert(!has_id(t, id)) by {
            if has_id(t, id) {
                let k = choose|k: int| 0 <= k < t.len() && #[trigger] t[k].id == id;
                assert(s[k + 1].id == id);
            }
        }
        lemma_remove_id_absent(t, id);
        assert(seq![s[0]] + t =~= s);
    }
}

/// In a cache with unique identifiers, removing an identifier removes every
/// entry with it and keeps the identifiers unique.
pub proof fn lemma_remove_id_unique(s: Seq<Comment>, id: u128)
    requires
        ids_unique(s),
    ensures
        ids_unique(remove_id(s, id)),
        !has_id(remove_id(s, id), id),
        forall|x: Comment| remove_id(s, id).contains(x) ==> s.contains(x),
        has_id(s, id) ==> remove_id(s, id).len() == s.len() - 1,
        !has_id(s, id) ==> remove_id(s, id) == s,
{
    if has_id(s, id) {
        let i = choose|i: int| 0 <= i < s.len() && #[trigger] s[i].id == id;
        assert forall|j: int| 0 <= j < i implies #[trigger] s[j].id != id by {
            assert(s[j].id != s[i].id);
        }
        lemma_remove_id_at(s, id, i);
        let r = s.remove(i);
        assert forall|a: int, b: int|
            0 <= a < r.len() && 0 <= b < r.len() && a != b implies #[trigger] r[a].id
            != #[trigger] r[b].id by {
            let a2 = if a < i { a } else { a + 1 };
            let b2 = if b < i { b } else { b + 1 };
            assert(r[a] == s[a2]);
            assert(r[b] == s[b2]);
        }
        assert(!has_id(r, id)) by {
            if has_id(r, id) {
                let k = choose|k: int| 0 <= k < r.len() && #[trigger] r[k].id == id;
                let k2 = if k < i { k } else { k + 1 };
                assert(r[k] == s[k2]);
            }
        }
        assert forall|x: Comment| r.contains(x) implies s.contains(x) by {
            let k = choose|k: int| 0 <= k < r.len() && r[k] == x;
            let k2 = if k < i { k } else { k + 1 };
            assert(r[k] == s[k2]);
        }
    } else {
        lemma_remove_id_absent(s, id);
    }
}

/// Adding to a cache with unique identifiers keeps them unique, and the added
/// comment is then the one entry with its identifier.
pub proof fn lemma_added_unique(s: Seq<Comment>, c: Comment)
    requires
        ids_unique(s),
    ensures
        ids_unique(added(s, c)),
        last_with_id(added(s, c), c.id) == Some(c),
        entries_with_id(added(s, c), c.id) == seq![c],
        forall|x: Comment| added(s, c).contains(x) ==> x == c || s.contains(x),
{
    lemma_remove_id_unique(s, c.id);
    let r = remove_id(s, c.id);
    let t = r.push(c);
    assert forall|a: int, b: int|
        0 <= a < t.len() && 0 <= b < t.len() && a != b implies #[trigger] t[a].id
        != #[trigger] t[b].id by {
        if a == r.len() {
            assert(t[b] == r[b]);
        } else if b == r.len() {
            assert(t[a] == r[a]);
        } else {
            assert(t[a] == r[a] && t[b] == r[b]);
        }
    }
    assert(t.drop_last() =~= r);
    lemma_no_entry_with_id(r, c.id);
    r.lemma_filter_push(c, |x: Comment| x.id == c.id);
    assert(entries_with_id(t, c.id) =~= seq![c]);
    assert forall|x: Comment| t.contains(x) implies x == c || s.contains(x) by {
        let k = choose|k: int| 0 <= k < t.len() && t[k] == x;
        if k < r.len() {
            assert(r[k] == x);
            assert(r.contains(x));
        }
    }
}

/// Without an entry carrying `id`, none is found.
pub proof fn lemma_no_entry_with_id(s: Seq<Comment>, id: u128)
    requires
        !has_id(s, id),
    ensures
        entries_with_id(s, id) == Seq::<Comment>::empty(),
        last_with_id(s, id) == None::<Comment>,
    decreases s.len(),
{
    reveal(Seq::filter);
    if s.len() > 0 {
        let t = s.drop_last();
        assert(!has_id(t, id)) by {
            if has_id(t, id) {
                let k = choose|k: int| 0 <= k < t.len() && #[trigger] t[k].id == id;
                assert(s[k].id == id);
            }
        }
        assert(s[s.len() - 1].id != id);
        lemma_no_entry_with_id(t, id);
    }
}

} // verus!

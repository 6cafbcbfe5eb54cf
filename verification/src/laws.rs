//! Laws of the store's operations, stated over the same views and spec
//! functions that the operations' contracts use.

use vstd::prelude::*;

use crate::store::{has_id, is_first_with_id, new_todo_view, page_of};
use crate::todo::{merge_text, merged, TodoView, UpdateView};

verus! {

/// No two records in `s` carry the same id.
pub open spec fn distinct_ids(s: Seq<TodoView>) -> bool {
    forall|i: int, j: int| 0 <= i < j < s.len() ==> s[i].id != s[j].id
}

/// Every record in `s` was updated no earlier than it was created.
pub open spec fn sound_times(s: Seq<TodoView>) -> bool {
    forall|i: int| 0 <= i < s.len() ==> s[i].created_at <= s[i].updated_at
}

/// A successful create whose generated id matches no stored id keeps the
/// store's ids pairwise distinct, and the created record's timestamps are
/// equal, so it also keeps every record created no later than updated.
pub proof fn lemma_create_preserves_invariants(
    s: Seq<TodoView>,
    id: Seq<char>,
    title: Seq<char>,
    content: Seq<char>,
    now: int,
)
    requires
        distinct_ids(s),
        !has_id(s, id),
    ensures
        distinct_ids(s.push(new_todo_view(id, title, content, now))),
        sound_times(s) ==> sound_times(s.push(new_todo_view(id, title, content, now))),
{
    let s2 = s.push(new_todo_view(id, title, content, now));
    assert forall|i: int, j: int| 0 <= i < j < s2.len() implies s2[i].id != s2[j].id by {
        if j == s.len() {
            assert(s2[i] == s[i]);
            assert(!(0 <= i < s.len() && s[i].id == id));
        }
    }
}

/// What an update merge does to a record: identity and creation time are
/// preserved; an absent or empty incoming title or content keeps the stored
/// text while a non-empty one replaces it; a present `completed` (even
/// `false`) replaces the stored flag; `updated_at` becomes the update time,
/// which never moves it backwards when the clock did not.
pub proof fn lemma_update_merge_rules(t: TodoView, p: UpdateView, now: int)
    ensures
        merged(t, p, now).id == t.id,
        merged(t, p, now).created_at == t.created_at,
        merged(t, p, now).updated_at == now,
        now >= t.updated_at ==> merged(t, p, now).updated_at >= t.updated_at,
        p.title is None ==> merged(t, p, now).title == t.title,
        match p.title {
            Some(s) => merged(t, p, now).title == (if s.len() > 0 {
                s
            } else {
                t.title
            }),
            None => true,
        },
        match p.content {
            Some(s) => merged(t, p, now).content == (if s.len() > 0 {
                s
            } else {
                t.content
            }),
            None => merged(t, p, now).content == t.content,
        },
        match p.completed {
            Some(b) => merged(t, p, now).completed == b,
            None => merged(t, p, now).completed == t.completed,
        },
        t.created_at <= t.updated_at && now >= t.created_at ==> merged(t, p, now).created_at
            <= merged(t, p, now).updated_at,
{
    assert(merged(t, p, now).title == merge_text(t.title, p.title));
}

/// An update in place keeps ids distinct and, when the update time is not
/// before the record's creation time, keeps every record created no later
/// than updated.
pub proof fn lemma_update_preserves_invariants(s: Seq<TodoView>, i: int, p: UpdateView, now: int)
    requires
        0 <= i < s.len(),
    ensures
        distinct_ids(s) ==> distinct_ids(s.update(i, merged(s[i], p, now))),
        sound_times(s) && now >= s[i].created_at ==> sound_times(
            s.update(i, merged(s[i], p, now)),
        ),
{
}

/// Deleting an existing id removes exactly one record: the store shrinks by
/// one, the id is gone afterwards (so a subsequent read of it fails), and
/// the remaining ids stay pairwise distinct.
pub proof fn lemma_delete_removes_exactly_one(s: Seq<TodoView>, id: Seq<char>, i: int)
    requires
        distinct_ids(s),
        is_first_with_id(s, id, i),
    ensures
        s.remove(i).len() == s.len() - 1,
        !has_id(s.remove(i), id),
        distinct_ids(s.remove(i)),
        sound_times(s) ==> sound_times(s.remove(i)),
{
    let s2 = s.remove(i);
    assert forall|k: int| 0 <= k < s2.len() implies s2[k].id != id by {
        if k < i {
            assert(s2[k] == s[k]);
        } else {
            assert(s2[k] == s[k + 1]);
        }
    }
}

/// The page window: with a 1-based page and any page size, the result holds
/// `limit` records starting at offset `(page - 1) * limit`, clipped to the
/// store's length, and the `k`-th returned record is the record at
/// `offset + k`; an offset at or past the end yields the empty sequence.
pub proof fn lemma_page_window(s: Seq<TodoView>, page: int, limit: int)
    requires
        page >= 1,
        limit >= 0,
    ensures
        (page - 1) * limit >= s.len() ==> page_of(s, page, limit).len() == 0,
        (page - 1) * limit + limit <= s.len() ==> page_of(s, page, limit).len() == limit,
        (page - 1) * limit < s.len() < (page - 1) * limit + limit ==> page_of(s, page, limit).len()
            == s.len() - (page - 1) * limit,
        forall|k: int|
            0 <= k < page_of(s, page, limit).len() ==> page_of(s, page, limit)[k] == s[(page - 1)
                * limit + k],
{
    assert((page - 1) * limit >= 0) by (nonlinear_arith)
        requires
            page >= 1,
            limit >= 0,
    ;
}

} // verus!

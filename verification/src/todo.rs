//! The todo record, the partial-update payload, and the merge rules that an
//! update applies to an existing record.

use vstd::prelude::*;

verus! {

/// The mathematical value of a [`Todo`]: every field as a plain value, with
/// timestamps as unbounded integers (milliseconds since the Unix epoch).
pub ghost struct TodoView {
    pub id: Seq<char>,
    pub title: Seq<char>,
    pub content: Seq<char>,
    pub completed: bool,
    pub created_at: int,
    pub updated_at: int,
}

/// A todo record as the store holds it. `id` is assigned by the store and
/// never client-supplied; `created_at` and `updated_at` are milliseconds
/// since the Unix epoch.
#[derive(Debug)]
pub struct Todo {
    pub id: String,
    pub title: String,
    pub content: String,
    pub completed: bool,
    pub created_at: i64,
    pub updated_at: i64,
}

impl View for Todo {
    type V = TodoView;

    open spec fn view(&self) -> TodoView {
        TodoView {
            id: self.id@,
            title: self.title@,
            content: self.content@,
            completed: self.completed,
            created_at: self.created_at as int,
            updated_at: self.updated_at as int,
        }
    }
}

impl Todo {
    /// An exact copy: the snapshot that read operations hand out.
    pub fn duplicate(&self) -> (r: Todo)
        ensures
            r@ == self@,
    {
        Todo {
            id: self.id.clone(),
            title: self.title.clone(),
            content: self.content.clone(),
            completed: self.completed,
            created_at: self.created_at,
            updated_at: self.updated_at,
        }
    }
}

/// The mathematical value of an [`UpdateTodo`].
pub ghost struct UpdateView {
    pub title: Option<Seq<char>>,
    pub content: Option<Seq<char>>,
    pub completed: Option<bool>,
}

/// A partial-update payload. For `title` and `content`, `None` or an empty
/// string leaves the stored value unchanged; for `completed`, any present
/// value (including `false`) replaces the stored one.
#[derive(Debug)]
pub struct UpdateTodo {
    pub title: Option<String>,
    pub content: Option<String>,
    pub completed: Option<bool>,
}

impl View for UpdateTodo {
    type V = UpdateView;

    open spec fn view(&self) -> UpdateView {
        UpdateView {
            title: match self.title {
                Some(ref s) => Some(s@),
                None => None,
            },
            content: match self.content {
                Some(ref s) => Some(s@),
                None => None,
            },
            completed: self.completed,
        }
    }
}

/// The value a text field has after a partial update: an absent or empty
/// incoming value keeps the current one, a non-empty incoming value replaces
/// it.
pub open spec fn merge_text(current: Seq<char>, incoming: Option<Seq<char>>) -> Seq<char> {
    match incoming {
        Some(s) => if s.len() > 0 {
            s
        } else {
            current
        },
        None => current,
    }
}

/// The record an update produces from the stored record `t`, the payload `p`,
/// and the update time `now`: identity and creation time are preserved,
/// `updated_at` becomes `now`.
pub open spec fn merged(t: TodoView, p: UpdateView, now: int) -> TodoView {
    TodoView {
        id: t.id,
        title: merge_text(t.title, p.title),
        content: merge_text(t.content, p.content),
        completed: match p.completed {
            Some(b) => b,
            None => t.completed,
        },
        created_at: t.created_at,
        updated_at: now,
    }
}

} // verus!

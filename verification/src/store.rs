//! The in-memory record store and the business rules around it: title
//! uniqueness on create, partial-update merging, timestamp stamping, and
//! offset/limit pagination. The store keeps records in insertion order.
//!
//! The store itself is single-threaded; a service shares one instance by
//! holding it behind an exclusive lock for the full duration of each
//! operation.

use vstd::prelude::*;

use crate::clock::current_millis;
use crate::error::TodoError;
use crate::ids::fresh_todo_id;
use crate::todo::{merged, Todo, TodoView, UpdateTodo};

verus! {

/// The views of a sequence of records: the store's mathematical contents.
pub open spec fn views_of(s: Seq<Todo>) -> Seq<TodoView> {
    s.map_values(|t: Todo| t@)
}

/// Some record in `s` carries this title.
pub open spec fn has_title(s: Seq<TodoView>, title: Seq<char>) -> bool {
    exists|i: int| 0 <= i < s.len() && s[i].title == title
}

/// Some record in `s` carries this id.
pub open spec fn has_id(s: Seq<TodoView>, id: Seq<char>) -> bool {
    exists|i: int| 0 <= i < s.len() && s[i].id == id
}

/// `i` is the position of the first record in `s` with this id. At most one
/// position satisfies this, so it pins the record an operation acts on.
pub open spec fn is_first_with_id(s: Seq<TodoView>, id: Seq<char>, i: int) -> bool {
    &&& 0 <= i < s.len()
    &&& s[i].id == id
    &&& forall|j: int| 0 <= j < i ==> s[j].id != id
}

/// `i` is the position of the first record in `s` with this title.
pub open spec fn is_first_with_title(s: Seq<TodoView>, title: Seq<char>, i: int) -> bool {
    &&& 0 <= i < s.len()
    &&& s[i].title == title
    &&& forall|j: int| 0 <= j < i ==> s[j].title != title
}

/// The record a create stores: the given fields, `completed` false, both
/// timestamps equal to the creation time.
pub open spec fn new_todo_view(
    id: Seq<char>,
    title: Seq<char>,
    content: Seq<char>,
    now: int,
) -> TodoView {
    TodoView { id, title, content, completed: false, created_at: now, updated_at: now }
}

/// The window that page `page` (1-based) with page size `limit` selects from
/// `s`: the records at offsets `(page - 1) * limit` up to `limit` more,
/// clipped to the length of `s`. An offset past the end yields the empty
/// sequence, never an error.
pub open spec fn page_of(s: Seq<TodoView>, page: int, limit: int) -> Seq<TodoView> {
    let offset = (page - 1) * limit;
    if offset >= s.len() {
        Seq::empty()
    } else if offset + limit <= s.len() {
        s.subrange(offset, offset + limit)
    } else {
        s.subrange(offset, s.len() as int)
    }
}

/// The authoritative, insertion-ordered collection of todo records.
pub struct TodoStore {
    todos: Vec<Todo>,
}

impl View for TodoStore {
    type V = Seq<TodoView>;

    closed spec fn view(&self) -> Seq<TodoView> {
        views_of(self.todos@)
    }
}

impl TodoStore {
    /// An empty store.
    pub fn new() -> (r: TodoStore)
        ensures
            r@ == Seq::<TodoView>::empty(),
    {
        let r = TodoStore { todos: Vec::new() };
        proof {
            assert(r@ =~= Seq::<TodoView>::empty());
        }
        r
    }

    /// How many records the store holds.
    pub fn len(&self) -> (r: usize)
        ensures
            r == self@.len(),
    {
        self.todos.len()
    }

    /// The position of the first record with this id, if any.
    pub fn find_index_by_id(&self, id: &String) -> (r: Option<usize>)
        ensures
            match r {
                Some(i) => is_first_with_id(self@, id@, i as int),
                None => !has_id(self@, id@),
            },
    {
        let mut i: usize = 0;
        while i < self.todos.len()
            invariant
                i <= self.todos.len(),
                forall|j: int| 0 <= j < i ==> self@[j].id != id@,
            decreases self.todos.len() - i,
        {
            if self.todos[i].id == *id {
                return Some(i);
            }
            i = i + 1;
        }
        None
    }

    /// The position of the first record with this title, if any.
    pub fn find_index_by_title(&self, title: &String) -> (r: Option<usize>)
        ensures
            match r {
                Some(i) => is_first_with_title(self@, title@, i as int),
                None => !has_title(self@, title@),
            },
    {
        let mut i: usize = 0;
        while i < self.todos.len()
            invariant
                i <= self.todos.len(),
                forall|j: int| 0 <= j < i ==> self@[j].title != title@,
            decreases self.todos.len() - i,
        {
            if self.todos[i].title == *title {
                return Some(i);
            }
            i = i + 1;
        }
        None
    }

    /// A copy of the first record with this id, or nothing.
    pub fn find_by_id(&self, id: &String) -> (r: Option<Todo>)
        ensures
            match r {
                Some(t) => exists|i: int|
                    #[trigger] is_first_with_id(self@, id@, i) && t@ == self@[i],
                None => !has_id(self@, id@),
            },
    {
        match self.find_index_by_id(id) {
            Some(i) => Some(self.todos[i].duplicate()),
            None => None,
        }
    }

    /// A copy of the first record with this title, or nothing.
    pub fn find_by_title(&self, title: &String) -> (r: Option<Todo>)
        ensures
            match r {
                Some(t) => exists|i: int|
                    #[trigger] is_first_with_title(self@, title@, i) && t@ == self@[i],
                None => !has_title(self@, title@),
            },
    {
        match self.find_index_by_title(title) {
            Some(i) => Some(self.todos[i].duplicate()),
            None => None,
        }
    }

    /// Appends a record. The caller has already assigned id and timestamps;
    /// the append always succeeds and never reorders earlier records.
    pub fn insert(&mut self, todo: Todo)
        ensures
            final(self)@ == old(self)@.push(todo@),
    {
        let ghost pre = self@;
        let ghost tv = todo@;
        self.todos.push(todo);
        proof {
            assert(self@ =~= pre.push(tv));
        }
    }

    /// Removes the first record with this id; reports whether one was there.
    pub fn remove(&mut self, id: &String) -> (r: bool)
        ensures
            !has_id(old(self)@, id@) ==> !r && final(self)@ == old(self)@,
            has_id(old(self)@, id@) ==> r && exists|i: int|
                #[trigger] is_first_with_id(old(self)@, id@, i) && final(self)@ == old(self)@.remove(i),
    {
        match self.find_index_by_id(id) {
            Some(i) => {
                let ghost pre = self@;
                self.todos.remove(i);
                proof {
                    assert(self@ =~= pre.remove(i as int));
                }
                true
            },
            None => false,
        }
    }

    /// A full snapshot of the store, in insertion order.
    pub fn list(&self) -> (r: Vec<Todo>)
        ensures
            views_of(r@) == self@,
    {
        let mut out: Vec<Todo> = Vec::new();
        let mut i: usize = 0;
        while i < self.todos.len()
            invariant
                i <= self.todos.len(),
                views_of(out@) =~= self@.subrange(0, i as int),
            decreases self.todos.len() - i,
        {
            let ghost pre = views_of(out@);
            out.push(self.todos[i].duplicate());
            proof {
                assert(views_of(out@) =~= pre.push(self@[i as int]));
                assert(views_of(out@) =~= self@.subrange(0, i + 1));
            }
            i = i + 1;
        }
        proof {
            assert(self@.subrange(0, self@.len() as int) =~= self@);
        }
        out
    }

    /// The snapshot window that 1-based page `page` with page size `limit`
    /// selects, in insertion order. An out-of-range page yields an empty
    /// vector.
    pub fn list_page(&self, page: usize, limit: usize) -> (r: Vec<Todo>)
        requires
            page >= 1,
        ensures
            views_of(r@) == page_of(self@, page as int, limit as int),
    {
        let mut out: Vec<Todo> = Vec::new();
        let n = self.todos.len();
        proof {
            assert(self@.len() == n as int);
        }
        let offset = match (page - 1).checked_mul(limit) {
            Some(o) => o,
            None => {
                // the true offset exceeds usize::MAX, hence the store length
                proof {
                    assert((page - 1) as int * limit as int > usize::MAX as int);
                    assert(views_of(out@) =~= page_of(self@, page as int, limit as int));
                }
                return out;
            },
        };
        if offset >= self.todos.len() {
            proof {
                assert(views_of(out@) =~= page_of(self@, page as int, limit as int));
            }
            return out;
        }
        let count = if limit < self.todos.len() - offset {
            limit
        } else {
            self.todos.len() - offset
        };
        let mut k: usize = 0;
        while k < count
            invariant
                k <= count,
                offset + count <= self.todos.len(),
                views_of(out@) =~= self@.subrange(offset as int, offset + k),
            decreases count - k,
        {
            let ghost pre = views_of(out@);
            out.push(self.todos[offset + k].duplicate());
            proof {
                assert(views_of(out@) =~= pre.push(self@[offset + k]));
                assert(views_of(out@) =~= self@.subrange(offset as int, offset + k + 1));
            }
            k = k + 1;
        }
        proof {
            assert(views_of(out@) =~= page_of(self@, page as int, limit as int));
        }
        out
    }

    /// Creates a record from the given fields, id, and creation time: fails
    /// with `Conflict` if the title is already taken, leaving the store
    /// unchanged; otherwise appends the new record and returns a copy of it.
    pub fn create_at(
        &mut self,
        title: &String,
        content: &String,
        id: String,
        now: i64,
    ) -> (r: Result<Todo, TodoError>)
        ensures
            r is Ok <==> !has_title(old(self)@, title@),
            match r {
                Ok(t) => t@ == new_todo_view(id@, title@, content@, now as int) && final(self)@
                    == old(self)@.push(t@),
                Err(e) => e == TodoError::Conflict && final(self)@ == old(self)@,
            },
    {
        match self.find_index_by_title(title) {
            Some(_) => Err(TodoError::Conflict),
            None => {
                let todo = Todo {
                    id,
                    title: title.clone(),
                    content: content.clone(),
                    completed: false,
                    created_at: now,
                    updated_at: now,
                };
                let out = todo.duplicate();
                self.insert(todo);
                Ok(out)
            },
        }
    }

    /// Creates a record from the given title and content, with a freshly
    /// generated id and the current time: fails with `Conflict` if the title
    /// is already taken, leaving the store unchanged; otherwise appends a
    /// record carrying the given fields, `completed` false, equal creation
    /// and update timestamps, and a 36-character generated id, and returns a
    /// copy of it.
    pub fn create(&mut self, title: &String, content: &String) -> (r: Result<Todo, TodoError>)
        ensures
            r is Ok <==> !has_title(old(self)@, title@),
            match r {
                Ok(t) => {
                    &&& t@.title == title@
                    &&& t@.content == content@
                    &&& !t@.completed
                    &&& t@.created_at == t@.updated_at
                    &&& t@.id.len() == 36
                    &&& final(self)@ == old(self)@.push(t@)
                },
                Err(e) => e == TodoError::Conflict && final(self)@ == old(self)@,
            },
    {
        let id = fresh_todo_id();
        let now = current_millis();
        self.create_at(title, content, id, now)
    }

    /// A copy of the record with this id, or `NotFound`.
    pub fn get(&self, id: &String) -> (r: Result<Todo, TodoError>)
        ensures
            r is Ok <==> has_id(self@, id@),
            match r {
                Ok(t) => exists|i: int|
                    #[trigger] is_first_with_id(self@, id@, i) && t@ == self@[i],
                Err(e) => e == TodoError::NotFound,
            },
    {
        match self.find_by_id(id) {
            Some(t) => Ok(t),
            None => Err(TodoError::NotFound),
        }
    }

    /// Applies a partial update to the record with this id at time `now`:
    /// fails with `NotFound` if no record has the id, leaving the store
    /// unchanged; otherwise replaces the record, in place and in order, with
    /// the merge of the stored record and the payload, and returns a copy of
    /// the result.
    pub fn update_at(&mut self, id: &String, patch: &UpdateTodo, now: i64) -> (r: Result<
        Todo,
        TodoError,
    >)
        ensures
            r is Ok <==> has_id(old(self)@, id@),
            match r {
                Ok(t) => exists|i: int|
                    {
                        &&& #[trigger] is_first_with_id(old(self)@, id@, i)
                        &&& t@ == merged(old(self)@[i], patch@, now as int)
                        &&& final(self)@ == old(self)@.update(i, t@)
                    },
                Err(e) => e == TodoError::NotFound && final(self)@ == old(self)@,
            },
    {
        match self.find_index_by_id(id) {
            None => Err(TodoError::NotFound),
            Some(i) => {
                let ghost pre = self@;
                let current = &self.todos[i];
                let title = match &patch.title {
                    Some(s) => if s.as_str().is_empty() {
                        current.title.clone()
                    } else {
                        s.clone()
                    },
                    None => current.title.clone(),
                };
                let content = match &patch.content {
                    Some(s) => if s.as_str().is_empty() {
                        current.content.clone()
                    } else {
                        s.clone()
                    },
                    None => current.content.clone(),
                };
                let completed = match patch.completed {
                    Some(b) => b,
                    None => current.completed,
                };
                let next = Todo {
                    id: current.id.clone(),
                    title,
                    content,
                    completed,
                    created_at: current.created_at,
                    updated_at: now,
                };
                proof {
                    assert(next@ == merged(pre[i as int], patch@, now as int));
                }
                let out = next.duplicate();
                self.todos.set(i, next);
                proof {
                    assert(self@ =~= pre.update(i as int, out@));
                }
                Ok(out)
            },
        }
    }

    /// Applies a partial update at the current time. Identity and creation
    /// time are preserved; `updated_at` is refreshed on every success, even
    /// when no field changed. Title uniqueness is not re-checked here.
    pub fn update(&mut self, id: &String, patch: &UpdateTodo) -> (r: Result<Todo, TodoError>)
        ensures
            r is Ok <==> has_id(old(self)@, id@),
            match r {
                Ok(t) => exists|i: int|
                    {
                        &&& #[trigger] is_first_with_id(old(self)@, id@, i)
                        &&& t@.id == old(self)@[i].id
                        &&& t@.created_at == old(self)@[i].created_at
                        &&& t@.title == crate::todo::merge_text(old(self)@[i].title, patch@.title)
                        &&& t@.content == crate::todo::merge_text(
                            old(self)@[i].content,
                            patch@.content,
                        )
                        &&& t@.completed == (match patch@.completed {
                            Some(b) => b,
                            None => old(self)@[i].completed,
                        })
                        &&& final(self)@ == old(self)@.update(i, t@)
                    },
                Err(e) => e == TodoError::NotFound && final(self)@ == old(self)@,
            },
    {
        let now = current_millis();
        self.update_at(id, patch, now)
    }

    /// Removes the record with this id, or fails with `NotFound` leaving the
    /// store unchanged.
    pub fn delete(&mut self, id: &String) -> (r: Result<(), TodoError>)
        ensures
            r is Ok <==> has_id(old(self)@, id@),
            match r {
                Ok(_) => exists|i: int|
                    #[trigger] is_first_with_id(old(self)@, id@, i) && final(self)@ == old(self)@.remove(
                        i,
                    ),
                Err(e) => e == TodoError::NotFound && final(self)@ == old(self)@,
            },
    {
        if self.remove(id) {
            Ok(())
        } else {
            Err(TodoError::NotFound)
        }
    }
}

} // verus!

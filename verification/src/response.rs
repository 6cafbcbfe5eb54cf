//! The response envelopes a service built on the store returns, and the
//! exact texts of the failure messages and the health line.

use vstd::prelude::*;
use vstd::string::StringExecFns;

use crate::todo::Todo;

verus! {

/// The `{status, message}` envelope of the health check and of every failure.
#[derive(Debug)]
pub struct GenericResponse {
    pub status: String,
    pub message: String,
}

/// The `{todo}` wrapper inside a single-record envelope.
#[derive(Debug)]
pub struct TodoData {
    pub todo: Todo,
}

/// The `{status, data: {todo}}` envelope of a successful create, read, or
/// update.
#[derive(Debug)]
pub struct SingleTodoResponse {
    pub status: String,
    pub data: TodoData,
}

/// The `{status, results, todos}` envelope of a list: `results` counts the
/// records actually returned after clipping, not the requested page size.
#[derive(Debug)]
pub struct TodoListResponse {
    pub status: String,
    pub results: usize,
    pub todos: Vec<Todo>,
}

/// The message of a `Conflict` failure on create.
pub fn conflict_message(title: &String) -> (r: String)
    ensures
        r@ == "Todo with title: '"@ + title@ + "' already exists"@,
{
    let mut s = "Todo with title: '".to_owned();
    s.append(title.as_str());
    s.append("' already exists");
    s
}

/// The message of a `NotFound` failure on read, update, or delete.
pub fn not_found_message(id: &String) -> (r: String)
    ensures
        r@ == "Todo with ID: "@ + id@ + " not found"@,
{
    let mut s = "Todo with ID: ".to_owned();
    s.append(id.as_str());
    s.append(" not found");
    s
}

/// The health check's envelope.
pub fn health_envelope() -> (r: GenericResponse)
    ensures
        r.status@ == "success"@,
        r.message@ == "Build Simple CRUD API with Rust and Actix Web"@,
{
    GenericResponse {
        status: "success".to_owned(),
        message: "Build Simple CRUD API with Rust and Actix Web".to_owned(),
    }
}

/// The failure envelope around a message.
pub fn fail_envelope(message: String) -> (r: GenericResponse)
    ensures
        r.status@ == "fail"@,
        r.message == message,
{
    GenericResponse { status: "fail".to_owned(), message }
}

/// The success envelope around a single record.
pub fn single_envelope(todo: Todo) -> (r: SingleTodoResponse)
    ensures
        r.status@ == "success"@,
        r.data.todo == todo,
{
    SingleTodoResponse { status: "success".to_owned(), data: TodoData { todo } }
}

/// The success envelope around a page of records; `results` equals the
/// number of records returned.
pub fn list_envelope(todos: Vec<Todo>) -> (r: TodoListResponse)
    ensures
        r.status@ == "success"@,
        r.results == todos@.len(),
        r.todos == todos,
{
    let results = todos.len();
    TodoListResponse { status: "success".to_owned(), results, todos }
}

} // verus!

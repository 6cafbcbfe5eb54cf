use todo_api::error::TodoError;
use todo_api::response::{
    conflict_message, fail_envelope, health_envelope, list_envelope, not_found_message,
    single_envelope,
};
use todo_api::store::TodoStore;
use todo_api::todo::UpdateTodo;

fn seeded(n: usize) -> TodoStore {
    let mut st = TodoStore::new();
    for i in 0..n {
        st.create_at(
            &format!("title-{}", i),
            &format!("content-{}", i),
            format!("id-{}", i),
            i as i64,
        )
        .unwrap();
    }
    st
}

#[test]
fn page_two_of_three_returns_offset_three_to_six() {
    let st = seeded(7);
    let page = st.list_page(2, 3);
    assert_eq!(page.len(), 3);
    assert_eq!(page[0].id, "id-3");
    assert_eq!(page[1].id, "id-4");
    assert_eq!(page[2].id, "id-5");
}

#[test]
fn page_clips_to_available_length() {
    let st = seeded(5);
    let page = st.list_page(2, 3);
    assert_eq!(page.len(), 2);
    assert_eq!(page[0].id, "id-3");
    assert_eq!(page[1].id, "id-4");
}

#[test]
fn far_page_returns_empty_with_zero_results() {
    let st = seeded(5);
    let page = st.list_page(100, 10);
    assert_eq!(page.len(), 0);
    let body = list_envelope(page);
    assert_eq!(body.results, 0);
    assert_eq!(body.status, "success");
}

#[test]
fn first_page_of_default_size() {
    let st = seeded(12);
    let page = st.list_page(1, 10);
    assert_eq!(page.len(), 10);
    assert_eq!(page[0].id, "id-0");
    assert_eq!(page[9].id, "id-9");
}

#[test]
fn zero_limit_returns_empty() {
    let st = seeded(5);
    let page = st.list_page(1, 0);
    assert_eq!(page.len(), 0);
}

#[test]
fn list_envelope_counts_returned_records() {
    let st = seeded(4);
    let body = list_envelope(st.list());
    assert_eq!(body.results, 4);
    assert_eq!(body.todos.len(), 4);
    assert_eq!(body.status, "success");
}

#[test]
fn failure_messages_match_the_wire_format() {
    assert_eq!(
        conflict_message(&"A".to_string()),
        "Todo with title: 'A' already exists"
    );
    assert_eq!(
        not_found_message(&"id-1".to_string()),
        "Todo with ID: id-1 not found"
    );
    let body = fail_envelope(not_found_message(&"id-1".to_string()));
    assert_eq!(body.status, "fail");
    assert_eq!(body.message, "Todo with ID: id-1 not found");
}

#[test]
fn health_envelope_carries_the_build_line() {
    let body = health_envelope();
    assert_eq!(body.status, "success");
    assert_eq!(body.message, "Build Simple CRUD API with Rust and Actix Web");
}

#[test]
fn crud_round_trip() {
    let mut st = TodoStore::new();

    // create {title:"A", content:"x"}: accepted, id assigned
    let created = st.create(&"A".to_string(), &"x".to_string()).unwrap();
    assert!(!created.id.is_empty());
    let body = single_envelope(created.duplicate());
    assert_eq!(body.status, "success");
    assert_eq!(body.data.todo.title, "A");

    // create {title:"A", content:"y"} again: conflict
    let again = st.create(&"A".to_string(), &"y".to_string());
    assert_eq!(again.unwrap_err(), TodoError::Conflict);

    // read the first: content is still "x"
    let read = st.get(&created.id).unwrap();
    assert_eq!(read.content, "x");

    // patch {completed:true}: completed set, content unchanged
    let patch = UpdateTodo { title: None, content: None, completed: Some(true) };
    let patched = st.update(&created.id, &patch).unwrap();
    assert!(patched.completed);
    assert_eq!(patched.content, "x");

    // delete that id, then read it again: not found
    st.delete(&created.id).unwrap();
    let gone = st.get(&created.id);
    assert_eq!(gone.unwrap_err(), TodoError::NotFound);
}

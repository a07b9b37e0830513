use todo_api::clock::Timestamp;
use todo_api::handler::{
    book_handler, create_todo_handler, delete_todo_handler, error_reply, todos_list_handler,
};
use todo_api::model::{QueryOptions, Todo};
use todo_api::response::{GenericResponse, HttpReply, Payload};
use todo_api::store::{Store, StoreError};

fn request(title: &str, content: &str) -> Todo {
    Todo {
        id: None,
        title: title.to_string(),
        content: content.to_string(),
        completed: None,
        createdAt: None,
        updatedAt: None,
    }
}

fn filled(n: usize) -> Store {
    let mut store = Store::new();
    for i in 0..n {
        let made = store.create_with(
            format!("title {}", i),
            format!("content {}", i),
            format!("id-{}", i),
            Timestamp { secs: i as i64, nanos: 0 },
        );
        assert!(made.is_ok());
    }
    store
}

fn fail(status: u16, message: &str) -> HttpReply {
    HttpReply {
        status,
        body: Payload::Message(GenericResponse {
            status: "fail".to_string(),
            message: message.to_string(),
        }),
    }
}

fn page(store: &Store, page: Option<usize>, limit: Option<usize>) -> (u16, usize, Vec<String>) {
    let reply = todos_list_handler(QueryOptions { page, limit }, store);
    match reply.body {
        Payload::TodoList(list) => {
            assert_eq!(list.status, "success");
            (reply.status, list.results, list.todos.into_iter().map(|t| t.title).collect())
        }
        other => panic!("not a list: {:?}", other),
    }
}

fn created(reply: HttpReply) -> Todo {
    assert_eq!(reply.status, 200);
    match reply.body {
        Payload::SingleTodo(single) => {
            assert_eq!(single.status, "success");
            single.data.todo
        }
        other => panic!("not a single record: {:?}", other),
    }
}

#[test]
fn book_handler_answers_with_the_fixed_message() {
    let reply = book_handler();
    assert_eq!(
        reply,
        HttpReply {
            status: 200,
            body: Payload::Message(GenericResponse {
                status: "success".to_string(),
                message: "Build Simple CRUD API with Rust and Actix Web".to_string(),
            }),
        }
    );
}

#[test]
fn error_reply_for_conflict() {
    assert_eq!(
        error_reply(StoreError::Conflict, "buy milk"),
        fail(409, "Todo with title: 'buy milk' already exists")
    );
    assert_eq!(error_reply(StoreError::Conflict, ""), fail(409, "Todo with title: '' already exists"));
}

#[test]
fn error_reply_for_not_found() {
    assert_eq!(error_reply(StoreError::NotFound, "abc"), fail(404, "Todo with ID: abc not found"));
    assert_eq!(error_reply(StoreError::NotFound, ""), fail(404, "Todo with ID:  not found"));
}

#[test]
fn create_on_a_new_title_succeeds() {
    let mut store = Store::new();
    let todo = created(create_todo_handler(request("buy milk", "2 gallons"), &mut store));
    assert_eq!(todo.title, "buy milk");
    assert_eq!(todo.content, "2 gallons");
    assert_eq!(todo.completed, Some(false));
    assert_eq!(todo.id.as_ref().map(|s| s.len()), Some(36));
    assert!(todo.createdAt.is_some());
    assert_eq!(todo.updatedAt, todo.createdAt);
    assert_eq!(store.list(0, 10), vec![todo]);
}

#[test]
fn create_overwrites_the_assigned_fields_of_the_body() {
    let mut store = Store::new();
    let body = Todo {
        id: Some("mine".to_string()),
        title: "t".to_string(),
        content: "c".to_string(),
        completed: Some(true),
        createdAt: Some(Timestamp { secs: 1, nanos: 2 }),
        updatedAt: Some(Timestamp { secs: 3, nanos: 4 }),
    };
    let todo = created(create_todo_handler(body, &mut store));
    assert_ne!(todo.id, Some("mine".to_string()));
    assert_eq!(todo.completed, Some(false));
    assert_ne!(todo.createdAt, Some(Timestamp { secs: 1, nanos: 2 }));
    assert_eq!(todo.updatedAt, todo.createdAt);
    assert!(!store.contains_id("mine"));
}

#[test]
fn create_on_a_taken_title_is_a_conflict() {
    let mut store = filled(2);
    let before = store.list(0, 10);
    let reply = create_todo_handler(request("title 1", "anything"), &mut store);
    assert_eq!(reply, fail(409, "Todo with title: 'title 1' already exists"));
    assert_eq!(store.len(), 2);
    assert_eq!(store.list(0, 10), before);
}

#[test]
fn list_defaults_to_the_first_ten() {
    let store = filled(12);
    let (status, results, titles) = page(&store, None, None);
    assert_eq!(status, 200);
    assert_eq!(results, 10);
    let expected: Vec<String> = (0..10).map(|i| format!("title {}", i)).collect();
    assert_eq!(titles, expected);
}

#[test]
fn list_of_an_empty_store() {
    let store = Store::new();
    assert_eq!(page(&store, None, None), (200, 0, vec![]));
}

#[test]
fn list_pages_follow_the_offset_formula() {
    let store = filled(8);
    assert_eq!(
        page(&store, Some(1), Some(3)),
        (200, 3, vec!["title 0".to_string(), "title 1".to_string(), "title 2".to_string()])
    );
    assert_eq!(
        page(&store, Some(2), Some(3)),
        (200, 3, vec!["title 3".to_string(), "title 4".to_string(), "title 5".to_string()])
    );
    assert_eq!(
        page(&store, Some(3), Some(3)),
        (200, 2, vec!["title 6".to_string(), "title 7".to_string()])
    );
    assert_eq!(page(&store, Some(4), Some(3)), (200, 0, vec![]));
}

#[test]
fn list_second_default_sized_page() {
    let store = filled(12);
    assert_eq!(
        page(&store, Some(2), None),
        (200, 2, vec!["title 10".to_string(), "title 11".to_string()])
    );
}

#[test]
fn list_with_limit_only() {
    let store = filled(4);
    assert_eq!(page(&store, None, Some(2)), (200, 2, vec!["title 0".to_string(), "title 1".to_string()]));
}

#[test]
fn list_page_zero_is_empty() {
    let store = filled(4);
    assert_eq!(page(&store, Some(0), Some(3)), (200, 0, vec![]));
    assert_eq!(page(&store, Some(0), None), (200, 0, vec![]));
    assert_eq!(page(&store, Some(0), Some(0)), (200, 0, vec![]));
}

#[test]
fn list_limit_zero_is_empty() {
    let store = filled(4);
    assert_eq!(page(&store, Some(1), Some(0)), (200, 0, vec![]));
    assert_eq!(page(&store, Some(3), Some(0)), (200, 0, vec![]));
}

#[test]
fn list_with_an_offset_beyond_the_machine_word_is_empty() {
    let store = filled(4);
    assert_eq!(page(&store, Some(usize::MAX), Some(usize::MAX)), (200, 0, vec![]));
    assert_eq!(page(&store, Some(3), Some(usize::MAX)), (200, 0, vec![]));
}

#[test]
fn list_first_page_with_a_huge_limit_is_everything() {
    let store = filled(3);
    assert_eq!(
        page(&store, Some(1), Some(usize::MAX)),
        (200, 3, vec!["title 0".to_string(), "title 1".to_string(), "title 2".to_string()])
    );
}

#[test]
fn list_sees_a_created_record_last() {
    let mut store = filled(2);
    created(create_todo_handler(request("new", "x"), &mut store));
    assert_eq!(
        page(&store, None, None),
        (200, 3, vec!["title 0".to_string(), "title 1".to_string(), "new".to_string()])
    );
}

#[test]
fn delete_of_an_unknown_id_is_not_found() {
    let mut store = filled(2);
    let before = store.list(0, 10);
    let reply = delete_todo_handler("nobody", &mut store);
    assert_eq!(reply, fail(404, "Todo with ID: nobody not found"));
    assert_eq!(store.list(0, 10), before);
}

#[test]
fn delete_of_a_stored_id_answers_no_content() {
    let mut store = filled(3);
    let reply = delete_todo_handler("id-1", &mut store);
    assert_eq!(reply, HttpReply { status: 204, body: Payload::Empty });
    assert_eq!(page(&store, None, None), (200, 2, vec!["title 0".to_string(), "title 2".to_string()]));
}

#[test]
fn delete_twice_answers_not_found_the_second_time() {
    let mut store = filled(1);
    assert_eq!(delete_todo_handler("id-0", &mut store).status, 204);
    assert_eq!(delete_todo_handler("id-0", &mut store), fail(404, "Todo with ID: id-0 not found"));
}

#[test]
fn buy_milk_scenario() {
    let mut store = Store::new();
    let first = created(create_todo_handler(request("buy milk", "2 gallons"), &mut store));
    let u1 = first.id.clone().unwrap();

    let second = create_todo_handler(request("buy milk", "anything"), &mut store);
    assert_eq!(second, fail(409, "Todo with title: 'buy milk' already exists"));

    let listed = todos_list_handler(QueryOptions { page: None, limit: None }, &store);
    assert_eq!(listed.status, 200);
    match listed.body {
        Payload::TodoList(list) => {
            assert_eq!(list.results, 1);
            assert_eq!(list.todos, vec![first]);
        }
        other => panic!("not a list: {:?}", other),
    }

    assert_eq!(delete_todo_handler(&u1, &mut store), HttpReply { status: 204, body: Payload::Empty });
    assert_eq!(
        delete_todo_handler(&u1, &mut store),
        fail(404, &format!("Todo with ID: {} not found", u1))
    );
    assert_eq!(store.len(), 0);
}

//! The four request handlers. Each takes the decoded request and the store
//! and returns the reply to send.

use crate::ident::is_uuid_v4_text;
use crate::model::{views, QueryOptions, Todo, TodoView};
use crate::response::{
    GenericResponse, HttpReply, HttpReplyView, Payload, PayloadView, SingleTodoResponse, TodoData,
    TodoListResponse,
};
use crate::store::{
    has_id, has_title, is_stored_record, lemma_window_contents, valid, window, without_id,
    Store, StoreError,
};
use vstd::prelude::*;

verus! {

pub const STATUS_OK: u16 = 200;

pub const STATUS_NO_CONTENT: u16 = 204;

pub const STATUS_NOT_FOUND: u16 = 404;

pub const STATUS_CONFLICT: u16 = 409;

/// The reply of the info endpoint.
pub open spec fn info_reply() -> HttpReplyView {
    HttpReplyView {
        status: STATUS_OK,
        body: PayloadView::Message {
            status: "success"@,
            message: "Build Simple CRUD API with Rust and Actix Web"@,
        },
    }
}

/// The records of page `page` where a page has `limit` records; pages are
/// counted from 1.
pub open spec fn page_of(s: Seq<TodoView>, page: int, limit: int) -> Seq<TodoView> {
    window(s, (page - 1) * limit, limit)
}

/// The reply to a list request: the page and the number of records on it.
pub open spec fn list_reply(s: Seq<TodoView>, page: int, limit: int) -> HttpReplyView {
    HttpReplyView {
        status: STATUS_OK,
        body: PayloadView::TodoList {
            status: "success"@,
            results: page_of(s, page, limit).len(),
            todos: page_of(s, page, limit),
        },
    }
}

/// The reply that carries a newly created record.
pub open spec fn created_reply(t: TodoView) -> HttpReplyView {
    HttpReplyView {
        status: STATUS_OK,
        body: PayloadView::SingleTodo { status: "success"@, todo: t },
    }
}

/// The reply to a successful delete: no content.
pub open spec fn deleted_reply() -> HttpReplyView {
    HttpReplyView { status: STATUS_NO_CONTENT, body: PayloadView::Empty }
}

/// The reply to a create whose title is taken.
pub open spec fn conflict_reply(title: Seq<char>) -> HttpReplyView {
    HttpReplyView {
        status: STATUS_CONFLICT,
        body: PayloadView::Message {
            status: "fail"@,
            message: "Todo with title: '"@ + title + "' already exists"@,
        },
    }
}

/// The reply to a delete of an identifier that no record has.
pub open spec fn not_found_reply(id: Seq<char>) -> HttpReplyView {
    HttpReplyView {
        status: STATUS_NOT_FOUND,
        body: PayloadView::Message {
            status: "fail"@,
            message: "Todo with ID: "@ + id + " not found"@,
        },
    }
}

/// The reply that reports `error`; `subject` is the title or identifier that
/// the refused request named.
pub open spec fn failure_reply(error: StoreError, subject: Seq<char>) -> HttpReplyView {
    match error {
        StoreError::Conflict => conflict_reply(subject),
        StoreError::NotFound => not_found_reply(subject),
    }
}

/// Builds the reply that reports `error` for the title or identifier
/// `subject`.
pub fn error_reply(error: StoreError, subject: &str) -> (r: HttpReply)
    ensures
        r@ == failure_reply(error, subject@),
{
    match error {
        StoreError::Conflict => {
            let mut message = "Todo with title: '".to_owned();
            message.append(subject);
            message.append("' already exists");
            HttpReply {
                status: STATUS_CONFLICT,
                body: Payload::Message(GenericResponse { status: "fail".to_owned(), message }),
            }
        },
        StoreError::NotFound => {
            let mut message = "Todo with ID: ".to_owned();
            message.append(subject);
            message.append(" not found");
            HttpReply {
                status: STATUS_NOT_FOUND,
                body: Payload::Message(GenericResponse { status: "fail".to_owned(), message }),
            }
        },
    }
}

/// Answers the info request with a fixed message.
pub fn book_handler() -> (r: HttpReply)
    ensures
        r@ == info_reply(),
{
    HttpReply {
        status: STATUS_OK,
        body: Payload::Message(
            GenericResponse {
                status: "success".to_owned(),
                message: "Build Simple CRUD API with Rust and Actix Web".to_owned(),
            },
        ),
    }
}

/// Answers a list request with the page asked for, in insertion order. Page
/// 0 and pages past the end are empty.
pub fn todos_list_handler(opts: QueryOptions, store: &Store) -> (r: HttpReply)
    ensures
        r@ == list_reply(store@, opts.spec_page(), opts.spec_limit()),
        valid(store@),
{
    let limit: usize = match opts.limit {
        Some(l) => l,
        None => 10,
    };
    let page: usize = match opts.page {
        Some(p) => p,
        None => 1,
    };
    let n = store.len();
    let todos: Vec<Todo> = if page == 0 {
        Vec::new()
    } else {
        match (page - 1).checked_mul(limit) {
            Some(offset) => store.list(offset, limit),
            None => Vec::new(),
        }
    };
    proof {
        lemma_page_bounds(store@, page as int, limit as int);
        assert(views(todos@) == page_of(store@, page as int, limit as int));
        assert(views(todos@).len() == todos@.len());
    }
    HttpReply {
        status: STATUS_OK,
        body: Payload::TodoList(
            TodoListResponse { status: "success".to_owned(), results: todos.len(), todos },
        ),
    }
}

/// Creates a record from the title and content of `body`; what `body` says
/// of the fields that the store assigns is ignored.
pub fn create_todo_handler(body: Todo, store: &mut Store) -> (r: HttpReply)
    ensures
        has_title(old(store)@, body@.title) ==> r@ == conflict_reply(body@.title) && final(store)@
            == old(store)@,
        !has_title(old(store)@, body@.title) ==> {
            let t = final(store)@.last();
            &&& final(store)@ == old(store)@.push(t)
            &&& t.title == body@.title
            &&& t.content == body@.content
            &&& is_stored_record(t)
            &&& is_uuid_v4_text(t.id->0)
            &&& r@ == created_reply(t)
        },
        valid(final(store)@),
{
    let title = body.title.clone();
    match store.create(body.title, body.content) {
        Ok(todo) => HttpReply {
            status: STATUS_OK,
            body: Payload::SingleTodo(
                SingleTodoResponse { status: "success".to_owned(), data: TodoData { todo } },
            ),
        },
        Err(e) => error_reply(e, title.as_str()),
    }
}

/// Deletes the records with the identifier `id`.
pub fn delete_todo_handler(id: &str, store: &mut Store) -> (r: HttpReply)
    ensures
        has_id(old(store)@, id@) ==> r@ == deleted_reply() && final(store)@ == without_id(
            old(store)@,
            id@,
        ),
        !has_id(old(store)@, id@) ==> r@ == not_found_reply(id@) && final(store)@ == old(store)@,
        valid(final(store)@),
{
    match store.delete(id) {
        Ok(()) => HttpReply { status: STATUS_NO_CONTENT, body: Payload::Empty },
        Err(e) => error_reply(e, id),
    }
}

/// Page 0 is empty, and so is a page whose first position is past the end.
proof fn lemma_page_bounds(s: Seq<TodoView>, page: int, limit: int)
    requires
        0 <= page,
        0 <= limit,
    ensures
        page == 0 ==> page_of(s, page, limit) == Seq::<TodoView>::empty(),
        (page - 1) * limit >= s.len() ==> page_of(s, page, limit) == Seq::<TodoView>::empty(),
{
    if page >= 1 {
        assert((page - 1) * limit >= 0) by (nonlinear_arith)
            requires
                page >= 1,
                limit >= 0,
        ;
    } else {
        assert((page - 1) * limit == -limit) by (nonlinear_arith)
            requires
                page == 0,
        ;
    }
}

/// Page `page` holds, in insertion order, the records from position
/// `(page - 1) * limit` on: `limit` of them, or as many as are left.
pub proof fn lemma_page_contents(s: Seq<TodoView>, page: int, limit: int)
    requires
        1 <= page,
        0 <= limit,
    ensures
        page_of(s, page, limit).len() == if (page - 1) * limit >= s.len() {
            0
        } else if limit <= s.len() - (page - 1) * limit {
            limit
        } else {
            s.len() - (page - 1) * limit
        },
        forall|k: int|
            0 <= k < page_of(s, page, limit).len() ==> #[trigger] page_of(s, page, limit)[k] == s[(
            page - 1) * limit + k],
{
    assert((page - 1) * limit >= 0) by (nonlinear_arith)
        requires
            page >= 1,
            limit >= 0,
    ;
    lemma_window_contents(s, (page - 1) * limit, limit);
}

} // verus!

//! The envelopes that the handlers answer with.

use crate::model::{views, Todo, TodoView};
use vstd::prelude::*;

verus! {

/// A status word and a message.
#[derive(Debug, PartialEq, Eq)]
pub struct GenericResponse {
    pub status: String,
    pub message: String,
}

/// The payload of a `SingleTodoResponse`.
#[derive(Debug, PartialEq, Eq)]
pub struct TodoData {
    pub todo: Todo,
}

/// A status word and one record.
#[derive(Debug, PartialEq, Eq)]
pub struct SingleTodoResponse {
    pub status: String,
    pub data: TodoData,
}

/// A status word, a list of records and their number.
#[derive(Debug, PartialEq, Eq)]
pub struct TodoListResponse {
    pub status: String,
    pub results: usize,
    pub todos: Vec<Todo>,
}

/// The body of a reply.
#[derive(Debug, PartialEq, Eq)]
pub enum Payload {
    /// No body at all.
    Empty,
    Message(GenericResponse),
    TodoList(TodoListResponse),
    SingleTodo(SingleTodoResponse),
}

/// An HTTP status code and the body sent with it.
#[derive(Debug, PartialEq, Eq)]
pub struct HttpReply {
    pub status: u16,
    pub body: Payload,
}

/// What a `Payload` holds.
pub enum PayloadView {
    Empty,
    Message { status: Seq<char>, message: Seq<char> },
    TodoList { status: Seq<char>, results: nat, todos: Seq<TodoView> },
    SingleTodo { status: Seq<char>, todo: TodoView },
}

/// What an `HttpReply` holds.
pub struct HttpReplyView {
    pub status: u16,
    pub body: PayloadView,
}

impl View for Payload {
    type V = PayloadView;

    open spec fn view(&self) -> PayloadView {
        match self {
            Payload::Empty => PayloadView::Empty,
            Payload::Message(m) => PayloadView::Message { status: m.status@, message: m.message@ },
            Payload::TodoList(l) => PayloadView::TodoList {
                status: l.status@,
                results: l.results as nat,
                todos: views(l.todos@),
            },
            Payload::SingleTodo(s) => PayloadView::SingleTodo {
                status: s.status@,
                todo: s.data.todo@,
            },
        }
    }
}

impl View for HttpReply {
    type V = HttpReplyView;

    open spec fn view(&self) -> HttpReplyView {
        HttpReplyView { status: self.status, body: self.body@ }
    }
}

} // verus!

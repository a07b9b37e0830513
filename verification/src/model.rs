//! The todo record and the paging options of a list request.

use crate::clock::Timestamp;
use vstd::prelude::*;

verus! {

/// A todo record. `id`, `completed`, `createdAt` and `updatedAt` are assigned
/// by the store when the record is created.
#[allow(non_snake_case)]
#[derive(Debug, PartialEq, Eq)]
pub struct Todo {
    pub id: Option<String>,
    pub title: String,
    pub content: String,
    pub completed: Option<bool>,
    pub createdAt: Option<Timestamp>,
    pub updatedAt: Option<Timestamp>,
}

/// What a `Todo` holds, with its strings as character sequences.
pub struct TodoView {
    pub id: Option<Seq<char>>,
    pub title: Seq<char>,
    pub content: Seq<char>,
    pub completed: Option<bool>,
    pub created_at: Option<Timestamp>,
    pub updated_at: Option<Timestamp>,
}

impl View for Todo {
    type V = TodoView;

    open spec fn view(&self) -> TodoView {
        TodoView {
            id: match self.id {
                Some(s) => Some(s@),
                None => None,
            },
            title: self.title@,
            content: self.content@,
            completed: self.completed,
            created_at: self.createdAt,
            updated_at: self.updatedAt,
        }
    }
}

impl Clone for Todo {
    fn clone(&self) -> (r: Self)
        ensures
            r@ == self@,
    {
        let id = match &self.id {
            Some(s) => Some(s.clone()),
            None => None,
        };
        Todo {
            id,
            title: self.title.clone(),
            content: self.content.clone(),
            completed: self.completed,
            createdAt: self.createdAt,
            updatedAt: self.updatedAt,
        }
    }
}

/// The views of a vector of records, in order.
pub open spec fn views(v: Seq<Todo>) -> Seq<TodoView> {
    v.map_values(|t: Todo| t@)
}

/// Paging options of a list request. A missing `page` counts as 1, a missing
/// `limit` as 10.
#[derive(Clone, Copy, Debug, PartialEq, Eq, Structural)]
pub struct QueryOptions {
    pub page: Option<usize>,
    pub limit: Option<usize>,
}

impl QueryOptions {
    /// The page asked for.
    pub open spec fn spec_page(&self) -> int {
        match self.page {
            Some(p) => p as int,
            None => 1,
        }
    }

    /// The page size asked for.
    pub open spec fn spec_limit(&self) -> int {
        match self.limit {
            Some(l) => l as int,
            None => 10,
        }
    }
}

} // verus!

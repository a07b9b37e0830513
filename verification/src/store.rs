//! The todo store: an insertion-ordered sequence of records in which no two
//! share a title.

use crate::clock::{now, Timestamp};
use crate::ident::{fresh_id, is_uuid_v4_text};
use crate::model::{views, Todo, TodoView};
use vstd::prelude::*;

verus! {

/// Why a store operation was refused.
#[derive(Clone, Copy, Debug, PartialEq, Eq, Structural)]
pub enum StoreError {
    /// A record with the same title is already stored.
    Conflict,
    /// No record has the identifier asked for.
    NotFound,
}

/// Some record of `s` has the title `title`.
pub open spec fn has_title(s: Seq<TodoView>, title: Seq<char>) -> bool {
    exists|i: int| 0 <= i < s.len() && (#[trigger] s[i]).title == title
}

/// Some record of `s` has the identifier `id`.
pub open spec fn has_id(s: Seq<TodoView>, id: Seq<char>) -> bool {
    exists|i: int| 0 <= i < s.len() && (#[trigger] s[i]).id == Some(id)
}

/// No two records of `s` share a title.
pub open spec fn titles_distinct(s: Seq<TodoView>) -> bool {
    forall|i: int, j: int|
        0 <= i < j < s.len() ==> (#[trigger] s[i]).title != (#[trigger] s[j]).title
}

/// No two records of `s` share an identifier.
pub open spec fn ids_distinct(s: Seq<TodoView>) -> bool {
    forall|i: int, j: int| 0 <= i < j < s.len() ==> (#[trigger] s[i]).id != (#[trigger] s[j]).id
}

/// The record that a successful create stores and returns: not completed,
/// created and last updated at `now`.
pub open spec fn created(
    title: Seq<char>,
    content: Seq<char>,
    id: Seq<char>,
    now: Timestamp,
) -> TodoView {
    TodoView {
        id: Some(id),
        title,
        content,
        completed: Some(false),
        created_at: Some(now),
        updated_at: Some(now),
    }
}

/// A record as create leaves it: it has an identifier, is not completed, and
/// was last updated when it was created.
pub open spec fn is_stored_record(t: TodoView) -> bool {
    &&& t.id is Some
    &&& t.completed == Some(false)
    &&& t.created_at is Some
    &&& t.updated_at == t.created_at
}

/// The invariant of a store's contents.
pub open spec fn valid(s: Seq<TodoView>) -> bool {
    &&& titles_distinct(s)
    &&& forall|i: int| 0 <= i < s.len() ==> is_stored_record(#[trigger] s[i])
}

/// The test that delete applies to each record: keep it unless its
/// identifier is `id`.
pub open spec fn keeps(id: Seq<char>) -> spec_fn(TodoView) -> bool {
    |t: TodoView| t.id != Some(id)
}

/// `s` without the records whose identifier is `id`, the others in order.
pub open spec fn without_id(s: Seq<TodoView>, id: Seq<char>) -> Seq<TodoView> {
    s.filter(keeps(id))
}

/// `i` brought into `0..=len`.
pub open spec fn clamp(i: int, len: int) -> int {
    if i < 0 {
        0
    } else if i > len {
        len
    } else {
        i
    }
}

/// The records of `s` at the positions `offset <= i < offset + limit`, as far
/// as `s` has them.
pub open spec fn window(s: Seq<TodoView>, offset: int, limit: int) -> Seq<TodoView>
    recommends
        limit >= 0,
{
    s.subrange(clamp(offset, s.len() as int), clamp(offset + limit, s.len() as int))
}

/// The in-memory collection of todo records, in insertion order.
pub struct Store {
    todos: Vec<Todo>,
}

impl View for Store {
    type V = Seq<TodoView>;

    closed spec fn view(&self) -> Seq<TodoView> {
        views(self.todos@)
    }
}

impl Store {
    #[verifier::type_invariant]
    spec fn inv(self) -> bool {
        valid(views(self.todos@))
    }

    /// An empty store.
    pub fn new() -> (s: Store)
        ensures
            s@ == Seq::<TodoView>::empty(),
    {
        Store { todos: Vec::new() }
    }

    /// The number of records. What a store holds is always valid.
    pub fn len(&self) -> (n: usize)
        ensures
            n == self@.len(),
            valid(self@),
    {
        proof {
            use_type_invariant(self);
        }
        self.todos.len()
    }

    /// Whether a record with this title is stored.
    pub fn contains_title(&self, title: &str) -> (b: bool)
        ensures
            b == has_title(self@, title@),
    {
        let wanted = title.to_owned();
        let mut i: usize = 0;
        while i < self.todos.len()
            invariant
                i <= self.todos.len(),
                wanted@ == title@,
                forall|j: int| 0 <= j < i ==> (#[trigger] self@[j]).title != title@,
            decreases self.todos.len() - i,
        {
            if self.todos[i].title == wanted {
                assert(self@[i as int].title == title@);
                return true;
            }
            i += 1;
        }
        false
    }

    /// Whether a record with this identifier is stored.
    pub fn contains_id(&self, id: &str) -> (b: bool)
        ensures
            b == has_id(self@, id@),
    {
        let wanted = id.to_owned();
        let mut i: usize = 0;
        while i < self.todos.len()
            invariant
                i <= self.todos.len(),
                wanted@ == id@,
                forall|j: int| 0 <= j < i ==> (#[trigger] self@[j]).id != Some(id@),
            decreases self.todos.len() - i,
        {
            if has_this_id(&self.todos[i], &wanted) {
                assert(self@[i as int].id == Some(id@));
                return true;
            }
            i += 1;
        }
        false
    }

    /// The records at positions `offset <= i < offset + limit`, in insertion
    /// order. An `offset` past the end gives an empty vector.
    pub fn list(&self, offset: usize, limit: usize) -> (r: Vec<Todo>)
        ensures
            views(r@) == window(self@, offset as int, limit as int),
            valid(self@),
    {
        proof {
            use_type_invariant(self);
        }
        let n = self.todos.len();
        let start = if offset < n { offset } else { n };
        let count = if limit < n - start { limit } else { n - start };
        let end = start + count;
        let mut out: Vec<Todo> = Vec::new();
        let mut i: usize = start;
        while i < end
            invariant
                start <= i <= end <= self.todos.len(),
                views(out@) == self@.subrange(start as int, i as int),
            decreases end - i,
        {
            let copy = self.todos[i].clone();
            proof {
                assert(views(out@.push(copy)) == views(out@).push(copy@));
                assert(self@[i as int] == copy@);
                assert(self@.subrange(start as int, i as int).push(self@[i as int])
                    == self@.subrange(start as int, i + 1));
            }
            out.push(copy);
            i += 1;
        }
        out
    }

    /// Stores a new record under the identifier `id`, stamped `now`, unless
    /// the title is taken.
    pub fn create_with(&mut self, title: String, content: String, id: String, now: Timestamp) -> (r:
        Result<Todo, StoreError>)
        ensures
            r is Err <==> has_title(old(self)@, title@),
            r matches Err(e) ==> e == StoreError::Conflict && final(self)@ == old(self)@,
            r matches Ok(t) ==> t@ == created(title@, content@, id@, now) && final(self)@ == old(
                self,
            )@.push(t@),
            valid(final(self)@),
            ids_distinct(old(self)@) && !has_id(old(self)@, id@) ==> ids_distinct(final(self)@),
    {
        proof {
            use_type_invariant(&*self);
        }
        if self.contains_title(title.as_str()) {
            return Err(StoreError::Conflict);
        }
        Ok(self.append(title, content, id, now))
    }

    /// Stores a new record with a fresh random identifier, stamped with the
    /// current time, unless the title is taken.
    pub fn create(&mut self, title: String, content: String) -> (r: Result<Todo, StoreError>)
        ensures
            r is Err <==> has_title(old(self)@, title@),
            r matches Err(e) ==> e == StoreError::Conflict && final(self)@ == old(self)@,
            r matches Ok(t) ==> {
                &&& t@.title == title@
                &&& t@.content == content@
                &&& is_stored_record(t@)
                &&& is_uuid_v4_text(t@.id->0)
                &&& final(self)@ == old(self)@.push(t@)
            },
            valid(final(self)@),
            r matches Ok(t) ==> (ids_distinct(old(self)@) && !has_id(old(self)@, t@.id->0)
                ==> ids_distinct(final(self)@)),
    {
        proof {
            use_type_invariant(&*self);
        }
        if self.contains_title(title.as_str()) {
            return Err(StoreError::Conflict);
        }
        let id = fresh_id();
        let stamp = now();
        Ok(self.append(title, content, id, stamp))
    }

    /// Appends the record that create makes of its arguments.
    fn append(&mut self, title: String, content: String, id: String, now: Timestamp) -> (t: Todo)
        requires
            !has_title(old(self)@, title@),
        ensures
            t@ == created(title@, content@, id@, now),
            final(self)@ == old(self)@.push(t@),
            valid(final(self)@),
            ids_distinct(old(self)@) && !has_id(old(self)@, id@) ==> ids_distinct(final(self)@),
    {
        proof {
            use_type_invariant(&*self);
        }
        let todo = Todo {
            id: Some(id),
            title,
            content,
            completed: Some(false),
            createdAt: Some(now),
            updatedAt: Some(now),
        };
        let copy = todo.clone();
        proof {
            lemma_push_valid(self@, todo@);
            assert(views(self.todos@.push(todo)) == self@.push(todo@));
        }
        let mut todos: Vec<Todo> = Vec::new();
        std::mem::swap(&mut todos, &mut self.todos);
        todos.push(todo);
        self.todos = todos;
        copy
    }

    /// Removes every record whose identifier is `id`; refused if there is
    /// none.
    pub fn delete(&mut self, id: &str) -> (r: Result<(), StoreError>)
        ensures
            r is Ok <==> has_id(old(self)@, id@),
            r matches Err(e) ==> e == StoreError::NotFound && final(self)@ == old(self)@,
            r is Ok ==> final(self)@ == without_id(old(self)@, id@),
            valid(final(self)@),
    {
        proof {
            use_type_invariant(&*self);
        }
        if !self.contains_id(id) {
            return Err(StoreError::NotFound);
        }
        let wanted = id.to_owned();
        let mut kept: Vec<Todo> = Vec::new();
        let mut i: usize = 0;
        while i < self.todos.len()
            invariant
                i <= self.todos.len(),
                wanted@ == id@,
                views(kept@) == without_id(self@.take(i as int), id@),
            decreases self.todos.len() - i,
        {
            proof {
                lemma_without_id_step(self@, i as int, id@);
            }
            if !has_this_id(&self.todos[i], &wanted) {
                let copy = self.todos[i].clone();
                assert(views(kept@.push(copy)) == views(kept@).push(copy@));
                kept.push(copy);
            }
            i += 1;
        }
        proof {
            assert(self@.take(self.todos.len() as int) == self@);
            lemma_without_id_valid(self@, id@);
        }
        self.todos = kept;
        Ok(())
    }
}

/// Whether `todo` carries the identifier `id`.
fn has_this_id(todo: &Todo, id: &String) -> (b: bool)
    ensures
        b == (todo@.id == Some(id@)),
{
    match &todo.id {
        Some(s) => *s == *id,
        None => false,
    }
}


/// Appending a stored record with an unused title keeps the contents valid.
proof fn lemma_push_valid(s: Seq<TodoView>, t: TodoView)
    requires
        valid(s),
        is_stored_record(t),
        !has_title(s, t.title),
    ensures
        valid(s.push(t)),
        ids_distinct(s) && (t.id matches Some(id) && !has_id(s, id)) ==> ids_distinct(s.push(t)),
{
    let p = s.push(t);
    assert forall|i: int, j: int| 0 <= i < j < p.len() implies (#[trigger] p[i]).title != (
    #[trigger] p[j]).title by {
        if j == s.len() {
            assert(s[i].title != t.title);
        } else {
            assert(s[i].title != s[j].title);
        }
    }
    if ids_distinct(s) && (t.id matches Some(id) && !has_id(s, id)) {
        assert forall|i: int, j: int| 0 <= i < j < p.len() implies (#[trigger] p[i]).id != (
        #[trigger] p[j]).id by {
            if j == s.len() {
                assert(s[i].id != t.id);
            } else {
                assert(s[i].id != s[j].id);
            }
        }
    }
}

/// One more record taken into account: it is kept unless it has the
/// identifier.
proof fn lemma_without_id_step(s: Seq<TodoView>, i: int, id: Seq<char>)
    requires
        0 <= i < s.len(),
    ensures
        without_id(s.take(i + 1), id) == if s[i].id == Some(id) {
            without_id(s.take(i), id)
        } else {
            without_id(s.take(i), id).push(s[i])
        },
{
    reveal(Seq::filter);
    assert(s.take(i + 1).drop_last() == s.take(i));
}

/// Every record that delete keeps was stored before.
proof fn lemma_kept_was_stored(s: Seq<TodoView>, id: Seq<char>, k: int) -> (i: int)
    requires
        0 <= k < without_id(s, id).len(),
    ensures
        0 <= i < s.len(),
        s[i] == without_id(s, id)[k],
        s[i].id != Some(id),
{
    let f = without_id(s, id);
    assert(f.contains(f[k]));
    s.lemma_filter_contains_rev(keeps(id), f[k]);
    s.lemma_filter_pred(keeps(id), k);
    choose|i: int| 0 <= i < s.len() && s[i] == f[k]
}

/// Delete keeps the contents valid.
pub proof fn lemma_without_id_valid(s: Seq<TodoView>, id: Seq<char>)
    requires
        valid(s),
    ensures
        valid(without_id(s, id)),
    decreases s.len(),
{
    reveal(Seq::filter);
    if s.len() > 0 {
        let init = s.drop_last();
        assert forall|i: int, j: int| 0 <= i < j < init.len() implies (#[trigger] init[i]).title
            != (#[trigger] init[j]).title by {
            assert(s[i].title != s[j].title);
        }
        assert forall|i: int| 0 <= i < init.len() implies is_stored_record(#[trigger] init[i]) by {
            assert(is_stored_record(s[i]));
        }
        lemma_without_id_valid(init, id);
        let f = without_id(init, id);
        let g = without_id(s, id);
        if keeps(id)(s.last()) {
            assert(g == f.push(s.last()));
            assert forall|i: int, j: int| 0 <= i < j < g.len() implies (#[trigger] g[i]).title != (
            #[trigger] g[j]).title by {
                if j == f.len() {
                    let k = lemma_kept_was_stored(init, id, i);
                    assert(s[k].title != s[s.len() - 1].title);
                } else {
                    assert(f[i].title != f[j].title);
                }
            }
            assert(is_stored_record(s[s.len() - 1]));
        } else {
            assert(g == f);
        }
    }
}

/// Deleting an identifier that no record has leaves the contents as they
/// are.
pub proof fn lemma_delete_unknown_id(s: Seq<TodoView>, id: Seq<char>)
    requires
        !has_id(s, id),
    ensures
        without_id(s, id) == s,
    decreases s.len(),
{
    reveal(Seq::filter);
    if s.len() > 0 {
        let init = s.drop_last();
        assert forall|i: int| 0 <= i < init.len() implies (#[trigger] init[i]).id != Some(id) by {
            assert(s[i].id != Some(id));
        }
        lemma_delete_unknown_id(init, id);
        assert(s[s.len() - 1].id != Some(id));
        assert(init.push(s.last()) == s);
    }
}

/// After a delete no record has the deleted identifier, so a second delete
/// of the same identifier finds nothing.
pub proof fn lemma_deleted_id_is_gone(s: Seq<TodoView>, id: Seq<char>)
    ensures
        !has_id(without_id(s, id), id),
{
    let f = without_id(s, id);
    assert forall|k: int| 0 <= k < f.len() implies (#[trigger] f[k]).id != Some(id) by {
        lemma_kept_was_stored(s, id, k);
    }
}

/// A delete keeps every record that has another identifier.
pub proof fn lemma_delete_keeps_others(s: Seq<TodoView>, id: Seq<char>, i: int)
    requires
        0 <= i < s.len(),
        s[i].id != Some(id),
    ensures
        without_id(s, id).contains(s[i]),
{
    s.lemma_filter_contains(keeps(id), i);
}

/// Where identifiers are distinct, deleting the identifier of the record at
/// position `i` removes that record and no other.
pub proof fn lemma_delete_removes_exactly_one(s: Seq<TodoView>, i: int)
    requires
        ids_distinct(s),
        0 <= i < s.len(),
        s[i].id is Some,
    ensures
        without_id(s, s[i].id->0) == s.remove(i),
    decreases s.len(),
{
    reveal(Seq::filter);
    let id = s[i].id->0;
    let init = s.drop_last();
    if i == s.len() - 1 {
        assert forall|j: int| 0 <= j < init.len() implies (#[trigger] init[j]).id != Some(id) by {
            assert(s[j].id != s[i].id);
        }
        lemma_delete_unknown_id(init, id);
        assert(s.remove(i) == init);
    } else {
        assert forall|j: int, k: int| 0 <= j < k < init.len() implies (#[trigger] init[j]).id != (
        #[trigger] init[k]).id by {
            assert(s[j].id != s[k].id);
        }
        assert(init[i] == s[i]);
        lemma_delete_removes_exactly_one(init, i);
        assert(s[i].id != s[s.len() - 1].id);
        assert(init.remove(i).push(s.last()) == s.remove(i));
    }
}

/// A window holds, in insertion order, the records from position `offset`
/// on, `limit` of them or as many as are left.
pub proof fn lemma_window_contents(s: Seq<TodoView>, offset: int, limit: int)
    requires
        0 <= offset,
        0 <= limit,
    ensures
        window(s, offset, limit).len() == if offset >= s.len() {
            0
        } else if limit <= s.len() - offset {
            limit
        } else {
            s.len() - offset
        },
        forall|k: int|
            0 <= k < window(s, offset, limit).len() ==> #[trigger] window(s, offset, limit)[k]
                == s[offset + k],
{
}

/// A record that create appends shows in exactly the windows that cover its
/// position, as their last record; every other window is as before.
pub proof fn lemma_window_after_create(s: Seq<TodoView>, t: TodoView, offset: int, limit: int)
    requires
        0 <= offset,
        0 <= limit,
    ensures
        window(s.push(t), offset, limit) == if offset <= s.len() < offset + limit {
            window(s, offset, limit).push(t)
        } else {
            window(s, offset, limit)
        },
{
}

} // verus!

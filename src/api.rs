use vstd::prelude::*;

use crate::router::{route, spec_route, Method, Route};
use crate::store::{after_delete, after_update, has_id, lookup, with_status, StoreError, TodoTable};
use crate::todo::{maybe_todo_view, todos_view, NewTodo, Status, Todo, TodoView};

verus! {

/// What a reply carries.
#[derive(Debug)]
pub enum Body {
    /// Nothing.
    Empty,
    /// A text message.
    Text(String),
    /// One todo.
    One(Todo),
    /// A list of todos.
    Many(Vec<Todo>),
    /// A number of todos.
    Count(usize),
}

/// The mathematical value of what a reply carries.
pub enum BodyView {
    Empty,
    Text(Seq<char>),
    One(TodoView),
    Many(Seq<TodoView>),
    Count(usize),
}

impl View for Body {
    type V = BodyView;

    open spec fn view(&self) -> BodyView {
        match self {
            Body::Empty => BodyView::Empty,
            Body::Text(s) => BodyView::Text(s@),
            Body::One(t) => BodyView::One(t@),
            Body::Many(v) => BodyView::Many(todos_view(v@)),
            Body::Count(n) => BodyView::Count(*n),
        }
    }
}

/// An HTTP reply: a status code and what it carries.
#[derive(Debug)]
pub struct Reply {
    pub status: u16,
    pub body: Body,
}

/// The mathematical value of a reply.
pub struct ReplyView {
    pub status: u16,
    pub body: BodyView,
}

impl View for Reply {
    type V = ReplyView;

    open spec fn view(&self) -> ReplyView {
        ReplyView { status: self.status, body: self.body@ }
    }
}

pub const OK: u16 = 200;

pub const CREATED: u16 = 201;

pub const NOT_FOUND: u16 = 404;

pub const BAD_REQUEST: u16 = 400;

pub const INTERNAL_SERVER_ERROR: u16 = 500;

/// The reply to a failure whose description is `err`.
pub open spec fn error_view(err: Seq<char>) -> ReplyView {
    ReplyView { status: INTERNAL_SERVER_ERROR, body: BodyView::Text("Internal Server Error: "@ + err) }
}

/// The reply to a listing.
pub open spec fn list_view(rows: Seq<TodoView>) -> ReplyView {
    ReplyView { status: OK, body: BodyView::Many(rows) }
}

/// The reply to a lookup: the todo, or 404 with nothing.
pub open spec fn found_view(found: Option<TodoView>) -> ReplyView {
    match found {
        Some(t) => ReplyView { status: OK, body: BodyView::One(t) },
        None => ReplyView { status: NOT_FOUND, body: BodyView::Empty },
    }
}

/// The reply to a creation.
pub open spec fn created_view(t: TodoView) -> ReplyView {
    ReplyView { status: CREATED, body: BodyView::One(t) }
}

/// The reply to a deletion.
pub open spec fn deleted_view(count: usize) -> ReplyView {
    ReplyView { status: OK, body: BodyView::Count(count) }
}

/// The reply to a request whose body holds no todo values.
pub open spec fn bad_request_view() -> ReplyView {
    ReplyView { status: BAD_REQUEST, body: BodyView::Empty }
}

/// The reply to a failure: 500, with the description after a fixed lead.
pub fn return_error(err: &str) -> (r: Reply)
    ensures
        r@ == error_view(err@),
{
    let text = String::from_str("Internal Server Error: ").concat(err);
    Reply { status: INTERNAL_SERVER_ERROR, body: Body::Text(text) }
}

/// The reply to a request whose body holds no todo values: 400 with nothing.
pub fn bad_request_reply() -> (r: Reply)
    ensures
        r@ == bad_request_view(),
{
    Reply { status: BAD_REQUEST, body: Body::Empty }
}

/// The reply to a listing of todos, or to its failure.
pub fn list_reply(outcome: Result<Vec<Todo>, String>) -> (r: Reply)
    ensures
        r@ == match outcome {
            Ok(v) => list_view(todos_view(v@)),
            Err(e) => error_view(e@),
        },
{
    match outcome {
        Ok(v) => Reply { status: OK, body: Body::Many(v) },
        Err(e) => return_error(e.as_str()),
    }
}

/// The reply to a lookup of one todo (also after an update), or to its
/// failure: the todo, 404 where there was none, 500 on failure.
pub fn found_reply(outcome: Result<Option<Todo>, String>) -> (r: Reply)
    ensures
        r@ == match outcome {
            Ok(o) => found_view(maybe_todo_view(o)),
            Err(e) => error_view(e@),
        },
{
    match outcome {
        Ok(Some(t)) => Reply { status: OK, body: Body::One(t) },
        Ok(None) => Reply { status: NOT_FOUND, body: Body::Empty },
        Err(e) => return_error(e.as_str()),
    }
}

/// The reply to the creation of a todo, or to its failure.
pub fn created_reply(outcome: Result<Todo, String>) -> (r: Reply)
    ensures
        r@ == match outcome {
            Ok(t) => created_view(t@),
            Err(e) => error_view(e@),
        },
{
    match outcome {
        Ok(t) => Reply { status: CREATED, body: Body::One(t) },
        Err(e) => return_error(e.as_str()),
    }
}

/// The reply to a deletion, or to its failure.
pub fn deleted_reply(outcome: Result<usize, String>) -> (r: Reply)
    ensures
        r@ == match outcome {
            Ok(n) => deleted_view(n),
            Err(e) => error_view(e@),
        },
{
    match outcome {
        Ok(n) => Reply { status: OK, body: Body::Count(n) },
        Err(e) => return_error(e.as_str()),
    }
}

/// `GET /todos/all`: every todo.
pub fn get_all_todos(table: &TodoTable) -> (r: Reply)
    requires
        table.wf(),
    ensures
        r@ == list_view(table@),
{
    list_reply(Ok(Todo::all(table)))
}

/// `GET /todos/by_id/{id}`: the todo with the identifier `id`, or 404.
pub fn get_todo_by_id(table: &TodoTable, id: i32) -> (r: Reply)
    requires
        table.wf(),
    ensures
        r@ == found_view(lookup(table@, id)),
{
    found_reply(Ok(Todo::by_id(table, id)))
}

/// `GET /todos/by_status/{status}`: the todos of the status `status`.
pub fn get_todos_by_status(table: &TodoTable, status: Status) -> (r: Reply)
    requires
        table.wf(),
    ensures
        r@ == list_view(with_status(table@, status.spec_completed())),
{
    list_reply(Ok(Todo::by_status(table, status.into())))
}

/// `POST /todos/new`: stores a todo with the values `new` and replies 201
/// with it; 500 where every identifier has been handed out.
pub fn create_todo(table: &mut TodoTable, new: &NewTodo) -> (r: Reply)
    requires
        old(table).wf(),
    ensures
        final(table).wf(),
        old(table).next_id() < i32::MAX ==> {
            &&& final(table)@ == old(table)@.push(new.stored_as(old(table).next_id()))
            &&& r@ == created_view(new.stored_as(old(table).next_id()))
        },
        old(table).next_id() == i32::MAX ==> {
            &&& final(table)@ == old(table)@
            &&& r@ == error_view(StoreError::IdsExhausted.spec_message())
        },
{
    match new.insert(table) {
        Ok(t) => created_reply(Ok(t)),
        Err(e) => created_reply(Err(e.message())),
    }
}

/// `PUT /todos/update/{id}`: writes the values `new` over the todo with the
/// identifier `id` and replies with it; 404 where no todo has it.
pub fn update_todo(table: &mut TodoTable, id: i32, new: &NewTodo) -> (r: Reply)
    requires
        old(table).wf(),
    ensures
        final(table).wf(),
        final(table)@ == after_update(old(table)@, id, *new),
        r@ == found_view(
            if has_id(old(table)@, id) {
                Some(new.stored_as(id))
            } else {
                None
            },
        ),
{
    match new.update(table, id) {
        Ok(t) => found_reply(Ok(Some(t))),
        Err(StoreError::NotFound) => found_reply(Ok(None)),
        Err(e) => found_reply(Err(e.message())),
    }
}

/// `DELETE /todos/delete/{id}`: removes the todo with the identifier `id`
/// and replies with the number removed.
pub fn delete_todo(table: &mut TodoTable, id: i32) -> (r: Reply)
    requires
        old(table).wf(),
    ensures
        final(table).wf(),
        final(table)@ == after_delete(old(table)@, id),
        r@ == deleted_view(
            if has_id(old(table)@, id) {
                1usize
            } else {
                0usize
            },
        ),
{
    deleted_reply(Ok(Todo::delete(table, id)))
}

/// Answers a request with the method `method`, the path `path` and, for a
/// creation or an update, the todo values `body`: 404 where no route
/// matches, 400 where a route that needs values has none.
pub fn handle(table: &mut TodoTable, method: Method, path: &str, body: Option<NewTodo>) -> (r:
    Reply)
    requires
        old(table).wf(),
    ensures
        final(table).wf(),
        match spec_route(method, path@) {
            None => r@ == found_view(None) && final(table)@ == old(table)@,
            Some(Route::AllTodos) => r@ == list_view(old(table)@) && final(table)@ == old(table)@,
            Some(Route::TodoById(id)) => r@ == found_view(lookup(old(table)@, id))
                && final(table)@ == old(table)@,
            Some(Route::TodosByStatus(s)) => r@ == list_view(
                with_status(old(table)@, s.spec_completed()),
            ) && final(table)@ == old(table)@,
            Some(Route::CreateTodo) => match body {
                None => r@ == bad_request_view() && final(table)@ == old(table)@,
                Some(new) => {
                    &&& old(table).next_id() < i32::MAX ==> {
                        &&& final(table)@ == old(table)@.push(new.stored_as(old(table).next_id()))
                        &&& r@ == created_view(new.stored_as(old(table).next_id()))
                    }
                    &&& old(table).next_id() == i32::MAX ==> {
                        &&& final(table)@ == old(table)@
                        &&& r@ == error_view(StoreError::IdsExhausted.spec_message())
                    }
                },
            },
            Some(Route::UpdateTodo(id)) => match body {
                None => r@ == bad_request_view() && final(table)@ == old(table)@,
                Some(new) => {
                    &&& final(table)@ == after_update(old(table)@, id, new)
                    &&& r@ == found_view(
                        if has_id(old(table)@, id) {
                            Some(new.stored_as(id))
                        } else {
                            None
                        },
                    )
                },
            },
            Some(Route::DeleteTodo(id)) => {
                &&& final(table)@ == after_delete(old(table)@, id)
                &&& r@ == deleted_view(
                    if has_id(old(table)@, id) {
                        1usize
                    } else {
                        0usize
                    },
                )
            },
        },
{
    match route(method, path) {
        None => found_reply(Ok(None)),
        Some(Route::AllTodos) => get_all_todos(table),
        Some(Route::TodoById(id)) => get_todo_by_id(table, id),
        Some(Route::TodosByStatus(s)) => get_todos_by_status(table, s),
        Some(Route::CreateTodo) => match body {
            None => bad_request_reply(),
            Some(new) => create_todo(table, &new),
        },
        Some(Route::UpdateTodo(id)) => match body {
            None => bad_request_reply(),
            Some(new) => update_todo(table, id, &new),
        },
        Some(Route::DeleteTodo(id)) => delete_todo(table, id),
    }
}

} // verus!

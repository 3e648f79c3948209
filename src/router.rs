use vstd::prelude::*;

use crate::todo::{same_text, Status};

verus! {

/// The HTTP methods that the routes answer.
#[derive(Clone, Copy, Debug, PartialEq, Eq, Structural)]
pub enum Method {
    Get,
    Post,
    Put,
    Delete,
}

/// A request's route, with what its path carries.
#[derive(Clone, Copy, Debug, PartialEq, Eq, Structural)]
pub enum Route {
    /// `GET /todos/all`
    AllTodos,
    /// `GET /todos/by_id/{id}`
    TodoById(i32),
    /// `GET /todos/by_status/{status}`
    TodosByStatus(Status),
    /// `POST /todos/new`
    CreateTodo,
    /// `PUT /todos/update/{id}`
    UpdateTodo(i32),
    /// `DELETE /todos/delete/{id}`
    DeleteTodo(i32),
}

/// A decimal digit.
pub open spec fn is_digit(c: char) -> bool {
    '0' <= c <= '9'
}

/// The number that a run of decimal digits writes.
pub open spec fn digits_value(s: Seq<char>) -> int
    decreases s.len(),
{
    if s.len() == 0 {
        0
    } else {
        digits_value(s.drop_last()) * 10 + (s.last() as int - '0' as int)
    }
}

/// The number that one or more decimal digits write.
pub open spec fn unsigned_value(s: Seq<char>) -> Option<int> {
    if s.len() > 0 && forall|i: int| 0 <= i < s.len() ==> is_digit(#[trigger] s[i]) {
        Some(digits_value(s))
    } else {
        None
    }
}

/// The number that an optional sign and then one or more decimal digits
/// write.
pub open spec fn decimal_value(s: Seq<char>) -> Option<int> {
    if s.len() > 0 && s[0] == '-' {
        match unsigned_value(s.drop_first()) {
            Some(v) => Some(-v),
            None => None,
        }
    } else if s.len() > 0 && s[0] == '+' {
        unsigned_value(s.drop_first())
    } else {
        unsigned_value(s)
    }
}

/// The `i32` that a text writes in decimal, if it writes one in range.
pub open spec fn spec_parse_i32(s: Seq<char>) -> Option<i32> {
    match decimal_value(s) {
        Some(v) => if i32::MIN <= v <= i32::MAX {
            Some(v as i32)
        } else {
            None
        },
        None => None,
    }
}

/// Relies on `str::parse::<i32>` (the `FromStr` of `i32`): an optional `+`
/// or `-` and then decimal digits only, whose value is in range.
#[verifier::external_body]
fn parse_i32(s: &str) -> (r: Option<i32>)
    ensures
        r == spec_parse_i32(s@),
{
    s.parse::<i32>().ok()
}

/// What follows `prefix` in `path`, where `path` starts with it.
pub open spec fn after_prefix(path: Seq<char>, prefix: Seq<char>) -> Option<Seq<char>> {
    if prefix.len() <= path.len() && path.subrange(0, prefix.len() as int) == prefix {
        Some(path.subrange(prefix.len() as int, path.len() as int))
    } else {
        None
    }
}

fn strip_prefix<'a>(path: &'a str, prefix: &str) -> (r: Option<&'a str>)
    ensures
        match r {
            Some(t) => after_prefix(path@, prefix@) == Some(t@),
            None => after_prefix(path@, prefix@) is None,
        },
{
    let n = path.unicode_len();
    let k = prefix.unicode_len();
    if k <= n && same_text(path.substring_char(0, k), prefix) {
        Some(path.substring_char(k, n))
    } else {
        None
    }
}

/// The identifier that follows `prefix` in `path`.
pub open spec fn id_after(path: Seq<char>, prefix: Seq<char>) -> Option<i32> {
    match after_prefix(path, prefix) {
        Some(s) => spec_parse_i32(s),
        None => None,
    }
}

fn read_id_after(path: &str, prefix: &str) -> (r: Option<i32>)
    ensures
        r == id_after(path@, prefix@),
{
    match strip_prefix(path, prefix) {
        Some(s) => parse_i32(s),
        None => None,
    }
}

/// The route of a request with the method `method` and the path `path`, if
/// it has one.
pub open spec fn spec_route(method: Method, path: Seq<char>) -> Option<Route> {
    match method {
        Method::Get => if path == "/todos/all"@ {
            Some(Route::AllTodos)
        } else if after_prefix(path, "/todos/by_id/"@) is Some {
            match id_after(path, "/todos/by_id/"@) {
                Some(id) => Some(Route::TodoById(id)),
                None => None,
            }
        } else {
            match after_prefix(path, "/todos/by_status/"@) {
                Some(s) => match Status::spec_from_segment(s) {
                    Some(status) => Some(Route::TodosByStatus(status)),
                    None => None,
                },
                None => None,
            }
        },
        Method::Post => if path == "/todos/new"@ {
            Some(Route::CreateTodo)
        } else {
            None
        },
        Method::Put => match id_after(path, "/todos/update/"@) {
            Some(id) => Some(Route::UpdateTodo(id)),
            None => None,
        },
        Method::Delete => match id_after(path, "/todos/delete/"@) {
            Some(id) => Some(Route::DeleteTodo(id)),
            None => None,
        },
    }
}

/// The route of a request with the method `method` and the path `path`;
/// `None` where no route matches.
pub fn route(method: Method, path: &str) -> (r: Option<Route>)
    ensures
        r == spec_route(method, path@),
{
    match method {
        Method::Get => {
            if same_text(path, "/todos/all") {
                Some(Route::AllTodos)
            } else if let Some(s) = strip_prefix(path, "/todos/by_id/") {
                match parse_i32(s) {
                    Some(id) => Some(Route::TodoById(id)),
                    None => None,
                }
            } else {
                match strip_prefix(path, "/todos/by_status/") {
                    Some(s) => match Status::from_segment(s) {
                        Some(status) => Some(Route::TodosByStatus(status)),
                        None => None,
                    },
                    None => None,
                }
            }
        },
        Method::Post => {
            if same_text(path, "/todos/new") {
                Some(Route::CreateTodo)
            } else {
                None
            }
        },
        Method::Put => match read_id_after(path, "/todos/update/") {
            Some(id) => Some(Route::UpdateTodo(id)),
            None => None,
        },
        Method::Delete => match read_id_after(path, "/todos/delete/") {
            Some(id) => Some(Route::DeleteTodo(id)),
            None => None,
        },
    }
}

} // verus!

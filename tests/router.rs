use todos::router::{route, Method, Route};
use todos::todo::Status;

#[test]
fn routes_of_the_six_endpoints() {
    assert_eq!(route(Method::Get, "/todos/all"), Some(Route::AllTodos));
    assert_eq!(route(Method::Get, "/todos/by_id/12"), Some(Route::TodoById(12)));
    assert_eq!(route(Method::Get, "/todos/by_status/complete"), Some(Route::TodosByStatus(Status::Complete)));
    assert_eq!(route(Method::Get, "/todos/by_status/incomplete"), Some(Route::TodosByStatus(Status::Incomplete)));
    assert_eq!(route(Method::Post, "/todos/new"), Some(Route::CreateTodo));
    assert_eq!(route(Method::Put, "/todos/update/7"), Some(Route::UpdateTodo(7)));
    assert_eq!(route(Method::Delete, "/todos/delete/3"), Some(Route::DeleteTodo(3)));
}

#[test]
fn identifiers_in_paths() {
    assert_eq!(route(Method::Get, "/todos/by_id/-4"), Some(Route::TodoById(-4)));
    assert_eq!(route(Method::Get, "/todos/by_id/+4"), Some(Route::TodoById(4)));
    assert_eq!(route(Method::Get, "/todos/by_id/007"), Some(Route::TodoById(7)));
    assert_eq!(route(Method::Get, "/todos/by_id/2147483647"), Some(Route::TodoById(i32::MAX)));
    assert_eq!(route(Method::Get, "/todos/by_id/-2147483648"), Some(Route::TodoById(i32::MIN)));
    assert_eq!(route(Method::Get, "/todos/by_id/2147483648"), None);
    assert_eq!(route(Method::Get, "/todos/by_id/"), None);
    assert_eq!(route(Method::Get, "/todos/by_id/-"), None);
    assert_eq!(route(Method::Get, "/todos/by_id/1x"), None);
    assert_eq!(route(Method::Get, "/todos/by_id/1/2"), None);
}

#[test]
fn methods_must_match() {
    assert_eq!(route(Method::Post, "/todos/all"), None);
    assert_eq!(route(Method::Get, "/todos/new"), None);
    assert_eq!(route(Method::Get, "/todos/delete/1"), None);
    assert_eq!(route(Method::Put, "/todos/delete/1"), None);
    assert_eq!(route(Method::Delete, "/todos/update/1"), None);
}

#[test]
fn other_paths_have_no_route() {
    assert_eq!(route(Method::Get, "/todos/all/"), None);
    assert_eq!(route(Method::Get, "/todos/by_status/Complete"), None);
    assert_eq!(route(Method::Get, "/todos/by_status/"), None);
    assert_eq!(route(Method::Get, ""), None);
    assert_eq!(route(Method::Get, "/todo/all"), None);
}

use todos::store::{StoreError, TodoTable};
use todos::todo::{NewTodo, Status, Todo};

fn new_todo(title: &str, completed: Option<bool>) -> NewTodo {
    NewTodo { title: title.to_string(), completed }
}

#[test]
fn created_todo_is_found_by_id() {
    let mut table = TodoTable::new();
    let first = new_todo("write report", Some(true)).insert(&mut table).unwrap();
    let second = new_todo("call home", None).insert(&mut table).unwrap();
    assert_eq!(first.id, 1);
    assert_eq!(second.id, 2);
    let found = Todo::by_id(&table, second.id).unwrap();
    assert_eq!(found.title, "call home");
    assert!(!found.completed);
    let found = Todo::by_id(&table, first.id).unwrap();
    assert_eq!(found.title, "write report");
    assert!(found.completed);
}

#[test]
fn lookup_of_unknown_id_is_absent() {
    let mut table = TodoTable::new();
    new_todo("a", None).insert(&mut table).unwrap();
    assert!(Todo::by_id(&table, 7).is_none());
    assert!(Todo::by_id(&table, 0).is_none());
}

#[test]
fn status_listings_split_the_table() {
    let mut table = TodoTable::new();
    new_todo("a", Some(true)).insert(&mut table).unwrap();
    new_todo("b", None).insert(&mut table).unwrap();
    new_todo("c", Some(false)).insert(&mut table).unwrap();
    new_todo("d", Some(true)).insert(&mut table).unwrap();
    let done = Todo::by_status(&table, true);
    let open = Todo::by_status(&table, false);
    assert!(done.iter().all(|t| t.completed));
    assert!(open.iter().all(|t| !t.completed));
    assert_eq!(done.iter().map(|t| t.id).collect::<Vec<i32>>(), vec![1, 4]);
    assert_eq!(open.iter().map(|t| t.id).collect::<Vec<i32>>(), vec![2, 3]);
    let all = Todo::all(&table);
    assert_eq!(all.len(), done.len() + open.len());
    for t in &all {
        assert!(done.contains(t) || open.contains(t));
    }
}

#[test]
fn listing_of_empty_table_is_empty() {
    let table = TodoTable::new();
    assert!(Todo::all(&table).is_empty());
    assert!(Todo::by_status(&table, true).is_empty());
    assert!(Todo::by_status(&table, false).is_empty());
}

#[test]
fn delete_of_unknown_id_changes_nothing() {
    let mut table = TodoTable::new();
    new_todo("a", None).insert(&mut table).unwrap();
    let before = Todo::all(&table);
    assert_eq!(Todo::delete(&mut table, 42), 0);
    assert_eq!(Todo::all(&table), before);
}

#[test]
fn delete_of_known_id_removes_that_todo() {
    let mut table = TodoTable::new();
    new_todo("a", None).insert(&mut table).unwrap();
    new_todo("b", None).insert(&mut table).unwrap();
    new_todo("c", None).insert(&mut table).unwrap();
    assert_eq!(Todo::delete(&mut table, 2), 1);
    let ids: Vec<i32> = Todo::all(&table).iter().map(|t| t.id).collect();
    assert_eq!(ids, vec![1, 3]);
    assert!(Todo::by_id(&table, 2).is_none());
    assert_eq!(Todo::delete(&mut table, 2), 0);
}

#[test]
fn ids_are_not_reused_after_delete() {
    let mut table = TodoTable::new();
    new_todo("a", None).insert(&mut table).unwrap();
    assert_eq!(Todo::delete(&mut table, 1), 1);
    let t = new_todo("b", None).insert(&mut table).unwrap();
    assert_eq!(t.id, 2);
}

#[test]
fn update_replaces_one_todo() {
    let mut table = TodoTable::new();
    new_todo("a", None).insert(&mut table).unwrap();
    new_todo("b", Some(true)).insert(&mut table).unwrap();
    let t = new_todo("b2", None).update(&mut table, 2).unwrap();
    assert_eq!(t, Todo { id: 2, title: "b2".to_string(), completed: false });
    let all = Todo::all(&table);
    assert_eq!(all[0], Todo { id: 1, title: "a".to_string(), completed: false });
    assert_eq!(all[1], Todo { id: 2, title: "b2".to_string(), completed: false });
}

#[test]
fn update_of_unknown_id_is_not_found() {
    let mut table = TodoTable::new();
    new_todo("a", None).insert(&mut table).unwrap();
    let before = Todo::all(&table);
    assert_eq!(new_todo("x", Some(true)).update(&mut table, 9), Err(StoreError::NotFound));
    assert_eq!(Todo::all(&table), before);
}

#[test]
fn store_error_messages() {
    assert_eq!(StoreError::NotFound.message(), "Record not found");
    assert_eq!(StoreError::IdsExhausted.message(), "No identifier is left for a new record");
}

#[test]
fn completed_defaults_to_false() {
    assert!(!new_todo("a", None).completed_or_default());
    assert!(new_todo("a", Some(true)).completed_or_default());
    assert!(!new_todo("a", Some(false)).completed_or_default());
}

#[test]
fn status_segments() {
    assert_eq!(Status::from_segment("complete"), Some(Status::Complete));
    assert_eq!(Status::from_segment("incomplete"), Some(Status::Incomplete));
    assert_eq!(Status::from_segment("Complete"), None);
    assert_eq!(Status::from_segment("completed"), None);
    assert_eq!(Status::from_segment(""), None);
    assert!(bool::from(Status::Complete));
    assert!(!bool::from(Status::Incomplete));
}

use todo_app::errors::ServerFnError;
use todo_app::errors::StoreError;
use todo_app::errors::wrap_store_error;
use todo_app::ops::ConnAttempt;
use todo_app::ops::add_todo;
use todo_app::ops::delete_todo;
use todo_app::ops::get_todos;
use todo_app::store::TodoStore;
use todo_app::task::Todo;

fn list(store: &TodoStore) -> Vec<Todo> {
    get_todos(store, ConnAttempt::Connected).expect("listing over a live connection succeeds")
}

#[test]
fn round_trip_add_then_list() {
    let mut store = TodoStore::new();
    let r = add_todo(&mut store, ConnAttempt::Connected, String::from("Buy milk"));
    assert!(r.is_ok());
    let tasks = list(&store);
    assert_eq!(tasks.len(), 1);
    assert_eq!(tasks[0].title().as_str(), "Buy milk");
    assert_eq!(tasks[0].completed(), false);
}

#[test]
fn scenario_add_then_delete_leaves_empty() {
    let mut store = TodoStore::new();
    assert!(list(&store).is_empty());

    let r = add_todo(&mut store, ConnAttempt::Connected, String::from("Wash car"));
    assert!(r.is_ok());
    let tasks = list(&store);
    assert_eq!(tasks.len(), 1);
    assert_eq!(tasks[0].title().as_str(), "Wash car");
    assert_eq!(tasks[0].completed(), false);
    let id = tasks[0].id();

    let d = delete_todo(&mut store, ConnAttempt::Connected, id);
    assert!(d.is_ok());
    assert!(list(&store).is_empty());
}

#[test]
fn each_add_grows_by_one_with_fresh_id() {
    let mut store = TodoStore::new();
    let mut seen: Vec<u16> = Vec::new();
    for i in 0..5u32 {
        let r = add_todo(&mut store, ConnAttempt::Connected, format!("task {}", i));
        assert!(r.is_ok());
        let tasks = list(&store);
        assert_eq!(tasks.len(), i as usize + 1);
        let id = tasks[tasks.len() - 1].id();
        assert!(!seen.contains(&id));
        seen.push(id);
    }
}

#[test]
fn delete_of_present_id_shrinks_by_one() {
    let mut store = TodoStore::new();
    add_todo(&mut store, ConnAttempt::Connected, String::from("first")).unwrap();
    add_todo(&mut store, ConnAttempt::Connected, String::from("second")).unwrap();
    let tasks = list(&store);
    assert_eq!(tasks.len(), 2);
    let id = tasks[0].id();

    delete_todo(&mut store, ConnAttempt::Connected, id).unwrap();
    let left = list(&store);
    assert_eq!(left.len(), 1);
    assert!(left.iter().all(|t| t.id() != id));
    assert_eq!(left[0].title().as_str(), "second");
}

#[test]
fn delete_of_absent_id_changes_nothing_and_succeeds() {
    let mut store = TodoStore::new();
    add_todo(&mut store, ConnAttempt::Connected, String::from("keep me")).unwrap();
    let before = list(&store);

    let d = delete_todo(&mut store, ConnAttempt::Connected, 999);
    assert!(d.is_ok());
    let after = list(&store);
    assert_eq!(after.len(), before.len());
    assert_eq!(after[0].title().as_str(), before[0].title().as_str());
    assert_eq!(after[0].id(), before[0].id());
}

#[test]
fn listing_empty_store_returns_empty_sequence() {
    let store = TodoStore::new();
    let tasks = list(&store);
    assert!(tasks.is_empty());
}

#[test]
fn connection_failure_on_list_is_an_error_with_the_message() {
    let store = TodoStore::new();
    let r = get_todos(&store, ConnAttempt::Failed(String::from("unable to open database file")));
    match r {
        Ok(_) => panic!("a failed connection must not list"),
        Err(e) => assert_eq!(e.message().as_str(), "unable to open database file"),
    }
}

#[test]
fn connection_failure_on_add_leaves_store_unchanged() {
    let mut store = TodoStore::new();
    add_todo(&mut store, ConnAttempt::Connected, String::from("kept")).unwrap();
    let r = add_todo(&mut store, ConnAttempt::Failed(String::from("down")), String::from("lost"));
    match r {
        Ok(_) => panic!("a failed connection must not insert"),
        Err(e) => assert_eq!(e.message().as_str(), "down"),
    }
    let tasks = list(&store);
    assert_eq!(tasks.len(), 1);
    assert_eq!(tasks[0].title().as_str(), "kept");
}

#[test]
fn connection_failure_on_delete_leaves_store_unchanged() {
    let mut store = TodoStore::new();
    add_todo(&mut store, ConnAttempt::Connected, String::from("kept")).unwrap();
    let id = list(&store)[0].id();
    let r = delete_todo(&mut store, ConnAttempt::Failed(String::from("down")), id);
    match r {
        Ok(_) => panic!("a failed connection must not delete"),
        Err(e) => assert_eq!(e.message().as_str(), "down"),
    }
    assert_eq!(list(&store).len(), 1);
}

#[test]
fn exhausted_id_space_fails_the_add() {
    let mut store = TodoStore::new();
    for i in 0..(u16::MAX as u32 - 1) {
        let r = add_todo(&mut store, ConnAttempt::Connected, format!("task {}", i));
        assert!(r.is_ok());
    }
    let r = add_todo(&mut store, ConnAttempt::Connected, String::from("one too many"));
    assert!(r.is_err());
    assert_eq!(list(&store).len(), u16::MAX as usize - 1);
}

#[test]
fn wrapping_keeps_the_message_of_every_store_error() {
    let wrapped = wrap_store_error(StoreError::ConnectionError(String::from("unreachable")));
    assert_eq!(wrapped.message().as_str(), "unreachable");
    let wrapped = wrap_store_error(StoreError::StatementError(String::from("syntax error")));
    assert_eq!(wrapped.message().as_str(), "syntax error");
    let wrapped = wrap_store_error(StoreError::DecodeError(String::from("bad row")));
    assert_eq!(wrapped.message().as_str(), "bad row");
    let ServerFnError::ServerError(m) =
        wrap_store_error(StoreError::ConnectionError(String::from("gone")));
    assert_eq!(m, "gone");
}

#[test]
fn todo_accessors_and_clone() {
    let t = Todo::new(7, String::from("read"), true);
    assert_eq!(t.id(), 7);
    assert_eq!(t.title().as_str(), "read");
    assert_eq!(t.completed(), true);
    let c = t.clone();
    assert!(c == t);
    let other = Todo::new(8, String::from("read"), true);
    assert!(!(other == t));
}

use todo_lists::model::db;
use todo_lists::model::time::Timestamp;
use todo_lists::model::{List, Task, User};
use todo_lists::repository::error::{Error, Fault};
use todo_lists::repository::store::Store;

fn at(secs: i64) -> Timestamp {
    Timestamp { secs, nanos: 0 }
}

fn user(id: u128, name: &str) -> User {
    User { id, username: name.to_string(), password_hash: format!("hash-of-{}", name) }
}

fn list(id: u128, title: &str, owner: u128) -> List {
    List { id, title: title.to_string(), created_at: at(10), created_by: owner, deleted_at: None }
}

fn task(id: u128, title: &str, list_id: u128, creator: u128) -> Task {
    Task {
        id,
        list_id,
        title: title.to_string(),
        due_date: at(1704067200),
        created_at: at(20),
        created_by: creator,
        completed_at: None,
        completed_by: None,
    }
}

#[test]
fn empty_store_holds_nothing() {
    let store = Store::new();
    assert!(!store.contains_user(1));
    assert!(!store.contains_list(1));
    assert!(!store.contains_task(1));
    assert_eq!(store.find_active_user("alice"), None);
    assert_eq!(store.visible_lists(1), Vec::<db::List>::new());
    assert_eq!(store.tasks_of(1), Vec::<db::Task>::new());
    assert_eq!(store.username_of(1), None);
}

#[test]
fn second_insert_of_a_username_is_refused() {
    let mut store = Store::new();
    assert_eq!(user(1, "alice").insert_user(&mut store), Ok(()));
    assert_eq!(user(2, "alice").insert_user(&mut store), Err(Error::UsernameTaken));
    assert!(!store.contains_user(2));
}

#[test]
fn usernames_are_case_sensitive() {
    let mut store = Store::new();
    assert_eq!(user(1, "alice").insert_user(&mut store), Ok(()));
    assert_eq!(user(2, "Alice").insert_user(&mut store), Ok(()));
    assert_eq!(store.find_active_user("Alice").unwrap().id, 2);
}

#[test]
fn duplicate_user_identifier_is_a_storage_fault() {
    let mut store = Store::new();
    assert_eq!(user(1, "alice").insert_user(&mut store), Ok(()));
    assert_eq!(
        user(1, "bob").insert_user(&mut store),
        Err(Error::StorageFault(Fault::DuplicateKey))
    );
    assert_eq!(store.find_active_user("bob"), None);
}

#[test]
fn taken_username_is_reported_before_a_taken_identifier() {
    let mut store = Store::new();
    assert_eq!(user(1, "alice").insert_user(&mut store), Ok(()));
    assert_eq!(user(1, "alice").insert_user(&mut store), Err(Error::UsernameTaken));
}

#[test]
fn user_is_found_by_username() {
    let mut store = Store::new();
    user(1, "alice").insert_user(&mut store).unwrap();
    user(2, "bob").insert_user(&mut store).unwrap();
    assert_eq!(User::get_user_by_username("bob", &store), Ok(Some(user(2, "bob"))));
    assert_eq!(User::get_user_by_username("carol", &store), Ok(None));
}

#[test]
fn inserted_user_row_is_never_deleted() {
    let mut store = Store::new();
    let row = db::User {
        id: 1,
        username: "alice".to_string(),
        password_hash: "h".to_string(),
        deleted_at: Some(at(5)),
    };
    assert_eq!(store.insert_user(row), Ok(()));
    assert_eq!(store.find_active_user("alice").unwrap().deleted_at, None);
}

#[test]
fn deleted_user_frees_the_username() {
    let mut store = Store::new();
    user(1, "alice").insert_user(&mut store).unwrap();
    store.delete_user(1, at(30));
    assert_eq!(store.find_active_user("alice"), None);
    assert!(store.contains_user(1));
    assert_eq!(user(2, "alice").insert_user(&mut store), Ok(()));
    assert_eq!(store.find_active_user("alice").unwrap().id, 2);
    assert_eq!(store.username_of(1), Some("alice".to_string()));
}

#[test]
fn deleting_a_user_twice_keeps_the_first_mark() {
    let mut store = Store::new();
    user(1, "alice").insert_user(&mut store).unwrap();
    store.delete_user(1, at(30));
    store.delete_user(1, at(40));
    user(2, "alice").insert_user(&mut store).unwrap();
    store.delete_user(2, at(50));
    assert_eq!(store.find_active_user("alice"), None);
    assert_eq!(user(3, "alice").insert_user(&mut store), Ok(()));
}

#[test]
fn list_appears_for_its_owner_only() {
    let mut store = Store::new();
    assert_eq!(list(10, "Groceries", 1).create_list(&mut store), Ok(()));
    assert_eq!(List::get_user_lists(1, &store), Ok(vec![list(10, "Groceries", 1)]));
    assert_eq!(List::get_user_lists(2, &store), Ok(vec![]));
}

#[test]
fn lists_come_in_the_order_of_insertion() {
    let mut store = Store::new();
    list(12, "third", 1).create_list(&mut store).unwrap();
    list(11, "other", 2).create_list(&mut store).unwrap();
    list(10, "first", 1).create_list(&mut store).unwrap();
    let ids: Vec<u128> = List::get_user_lists(1, &store).unwrap().iter().map(|l| l.id).collect();
    assert_eq!(ids, vec![12, 10]);
}

#[test]
fn empty_list_title_is_refused() {
    let mut store = Store::new();
    assert_eq!(
        list(10, "", 1).create_list(&mut store),
        Err(Error::StorageFault(Fault::EmptyTitle))
    );
    assert!(!store.contains_list(10));
}

#[test]
fn duplicate_list_identifier_is_a_storage_fault() {
    let mut store = Store::new();
    list(10, "a", 1).create_list(&mut store).unwrap();
    assert_eq!(
        list(10, "b", 2).create_list(&mut store),
        Err(Error::StorageFault(Fault::DuplicateKey))
    );
    assert_eq!(List::get_user_lists(2, &store), Ok(vec![]));
}

#[test]
fn inserted_list_is_never_deleted() {
    let mut store = Store::new();
    let mut l = list(10, "a", 1);
    l.deleted_at = Some(at(3));
    l.create_list(&mut store).unwrap();
    assert_eq!(List::get_user_lists(1, &store), Ok(vec![list(10, "a", 1)]));
}

#[test]
fn deleted_list_is_hidden_and_its_row_stays() {
    let mut store = Store::new();
    list(10, "a", 1).create_list(&mut store).unwrap();
    list(11, "b", 1).create_list(&mut store).unwrap();
    assert_eq!(list(10, "a", 1).delete_list_at(1, at(99), &mut store), Ok(()));
    assert_eq!(List::get_user_lists(1, &store), Ok(vec![list(11, "b", 1)]));
    assert!(store.contains_list(10));
    assert_eq!(store.find_live_list(10), None);
    assert_eq!(
        list(10, "again", 1).create_list(&mut store),
        Err(Error::StorageFault(Fault::DuplicateKey))
    );
}

#[test]
fn delete_by_another_user_changes_nothing() {
    let mut store = Store::new();
    list(10, "a", 1).create_list(&mut store).unwrap();
    assert_eq!(list(10, "a", 1).delete_list_at(2, at(99), &mut store), Ok(()));
    assert_eq!(List::get_user_lists(1, &store), Ok(vec![list(10, "a", 1)]));
    assert!(!store.delete_list(10, 2, at(99)));
    assert!(store.delete_list(10, 1, at(100)));
    assert!(!store.delete_list(10, 1, at(101)));
}

#[test]
fn delete_reads_the_clock() {
    let mut store = Store::new();
    list(10, "a", 1).create_list(&mut store).unwrap();
    assert_eq!(list(10, "a", 1).delete_list(1, &mut store), Ok(()));
    assert_eq!(List::get_user_lists(1, &store), Ok(vec![]));
}

#[test]
fn task_appears_in_its_list() {
    let mut store = Store::new();
    assert_eq!(task(100, "Buy milk", 10, 1).create_task(&mut store), Ok(()));
    assert_eq!(task(101, "Other", 11, 1).create_task(&mut store), Ok(()));
    assert_eq!(Task::get_list_tasks(10, &store), Ok(vec![task(100, "Buy milk", 10, 1)]));
    assert_eq!(Task::get_list_tasks(12, &store), Ok(vec![]));
}

#[test]
fn empty_task_title_is_refused() {
    let mut store = Store::new();
    assert_eq!(
        task(100, "", 10, 1).create_task(&mut store),
        Err(Error::StorageFault(Fault::EmptyTitle))
    );
    assert!(!store.contains_task(100));
}

#[test]
fn duplicate_task_identifier_is_a_storage_fault() {
    let mut store = Store::new();
    task(100, "a", 10, 1).create_task(&mut store).unwrap();
    assert_eq!(
        task(100, "b", 11, 1).create_task(&mut store),
        Err(Error::StorageFault(Fault::DuplicateKey))
    );
}

#[test]
fn inserted_task_is_never_completed() {
    let mut store = Store::new();
    let mut t = task(100, "a", 10, 1);
    t.completed_at = Some(at(5));
    t.completed_by = Some("bob".to_string());
    t.create_task(&mut store).unwrap();
    assert_eq!(Task::get_list_tasks(10, &store), Ok(vec![task(100, "a", 10, 1)]));
}

#[test]
fn completion_records_instant_and_completer() {
    let mut store = Store::new();
    user(2, "bob").insert_user(&mut store).unwrap();
    task(100, "a", 10, 1).create_task(&mut store).unwrap();
    assert_eq!(task(100, "a", 10, 1).complete_task_at(2, at(77), &mut store), Ok(()));
    let rows = store.tasks_of(10);
    assert_eq!(rows[0].completed_at, Some(at(77)));
    assert_eq!(rows[0].completed_by, Some(2));
    let tasks = Task::get_list_tasks(10, &store).unwrap();
    assert_eq!(tasks[0].completed_at, Some(at(77)));
    assert_eq!(tasks[0].completed_by, Some("bob".to_string()));
}

#[test]
fn completing_twice_rewrites_the_completion() {
    let mut store = Store::new();
    task(100, "a", 10, 1).create_task(&mut store).unwrap();
    task(100, "a", 10, 1).complete_task_at(2, at(77), &mut store).unwrap();
    task(100, "a", 10, 1).complete_task_at(3, at(88), &mut store).unwrap();
    let rows = store.tasks_of(10);
    assert_eq!(rows[0].completed_at, Some(at(88)));
    assert_eq!(rows[0].completed_by, Some(3));
}

#[test]
fn uncomplete_clears_instant_and_completer() {
    let mut store = Store::new();
    task(100, "a", 10, 1).create_task(&mut store).unwrap();
    task(100, "a", 10, 1).complete_task_at(2, at(77), &mut store).unwrap();
    assert_eq!(task(100, "a", 10, 1).uncomplete_task(&mut store), Ok(()));
    let rows = store.tasks_of(10);
    assert_eq!(rows[0].completed_at, None);
    assert_eq!(rows[0].completed_by, None);
    assert_eq!(Task::get_list_tasks(10, &store), Ok(vec![task(100, "a", 10, 1)]));
}

#[test]
fn completion_of_an_unknown_task_changes_nothing() {
    let mut store = Store::new();
    task(100, "a", 10, 1).create_task(&mut store).unwrap();
    assert!(!store.complete_task(999, 2, at(77)));
    assert!(!store.uncomplete_task(999));
    assert!(!store.toggle_task(999, 2, at(77)));
    assert!(store.complete_task(100, 2, at(77)));
    assert_eq!(store.tasks_of(10)[0].completed_by, Some(2));
}

#[test]
fn completer_without_a_user_row_has_no_name() {
    let mut store = Store::new();
    task(100, "a", 10, 1).create_task(&mut store).unwrap();
    store.complete_task(100, 42, at(77));
    let tasks = Task::get_list_tasks(10, &store).unwrap();
    assert_eq!(tasks[0].completed_at, Some(at(77)));
    assert_eq!(tasks[0].completed_by, None);
}

#[test]
fn complete_reads_the_clock() {
    let mut store = Store::new();
    task(100, "a", 10, 1).create_task(&mut store).unwrap();
    assert_eq!(task(100, "a", 10, 1).complete_task(2, &mut store), Ok(()));
    let rows = store.tasks_of(10);
    assert!(rows[0].completed_at.unwrap().secs > 1_600_000_000);
    assert_eq!(rows[0].completed_by, Some(2));
}

#[test]
fn toggle_alternates() {
    let mut store = Store::new();
    task(100, "a", 10, 1).create_task(&mut store).unwrap();
    assert!(store.toggle_task(100, 2, at(5)));
    assert_eq!(store.tasks_of(10)[0].completed_at, Some(at(5)));
    assert_eq!(store.tasks_of(10)[0].completed_by, Some(2));
    assert!(store.toggle_task(100, 3, at(6)));
    assert_eq!(store.tasks_of(10)[0].completed_at, None);
    assert_eq!(store.tasks_of(10)[0].completed_by, None);
}

#[test]
fn new_list_is_stamped_and_not_deleted() {
    let a = List::new("Groceries".to_string(), 1);
    let b = List::new("Groceries".to_string(), 1);
    assert_eq!(a.title, "Groceries");
    assert_eq!(a.created_by, 1);
    assert_eq!(a.deleted_at, None);
    assert!(a.created_at.secs > 1_600_000_000);
    assert!(a.created_at.nanos < 2_000_000_000);
    assert_ne!(a.id, b.id);
}

#[test]
fn new_task_is_stamped_and_not_completed() {
    let a = Task::new("Buy milk".to_string(), at(1704067200), 10, 1);
    let b = Task::new("Buy milk".to_string(), at(1704067200), 10, 1);
    assert_eq!(a.title, "Buy milk");
    assert_eq!(a.due_date, at(1704067200));
    assert_eq!(a.list_id, 10);
    assert_eq!(a.created_by, 1);
    assert_eq!(a.completed_at, None);
    assert_eq!(a.completed_by, None);
    assert!(a.created_at.secs > 1_600_000_000);
    assert_ne!(a.id, b.id);
}

#[test]
fn rows_and_records_convert() {
    let l = list(10, "a", 1);
    assert_eq!(List::from_row(&l.to_row()), l);
    let u = user(1, "alice");
    assert_eq!(User::from_row(&u.to_row()), u);
    assert_eq!(u.to_row().deleted_at, None);
    let mut t = task(100, "a", 10, 1);
    t.completed_at = Some(at(5));
    t.completed_by = Some("bob".to_string());
    let row = t.to_row();
    assert_eq!(row.completed_at, None);
    assert_eq!(row.completed_by, None);
    assert_eq!(Task::from_row(&row, None), task(100, "a", 10, 1));
    assert_eq!(t.clone(), t);
    assert_eq!(
        db::ListUser { list_id: 10, user_id: 1 },
        db::ListUser { list_id: 10, user_id: 1 }
    );
}

#[test]
fn rows_are_found_by_identifier_deleted_or_not() {
    let mut store = Store::new();
    user(1, "alice").insert_user(&mut store).unwrap();
    list(10, "a", 1).create_list(&mut store).unwrap();
    task(100, "t", 10, 1).create_task(&mut store).unwrap();
    store.delete_user(1, at(30));
    store.delete_list(10, 1, at(31));
    store.complete_task(100, 1, at(32));
    assert_eq!(store.find_user(1).unwrap().deleted_at, Some(at(30)));
    assert_eq!(store.find_list(10).unwrap().deleted_at, Some(at(31)));
    assert_eq!(store.find_list(10).unwrap().title, "a");
    assert_eq!(store.find_task(100).unwrap().completed_at, Some(at(32)));
    assert_eq!(store.find_task(100).unwrap().completed_by, Some(1));
    assert_eq!(store.find_user(2), None);
    assert_eq!(store.find_list(11), None);
    assert_eq!(store.find_task(101), None);
}

use todo_lists::model::time::Timestamp;
use todo_lists::model::{List, Task};
use todo_lists::repository::error::{Error, Fault};
use todo_lists::repository::Repository;
use todo_lists::server;
use todo_lists::session::SessionBinder;

const SALT: &str = "YWJjZGVmZ2hpamtsbW5v";

fn due() -> Timestamp {
    Timestamp { secs: 1_704_067_200, nanos: 0 }
}

fn signed_up(repo: &mut Repository, sessions: &mut SessionBinder, name: &str, pw: &str) -> u128 {
    server::register(repo, sessions, name.to_string(), pw.to_string(), SALT).unwrap()
}

#[test]
fn register_signs_the_user_in() {
    let mut repo = Repository::new();
    let mut sessions = SessionBinder::new(None);
    let handle = signed_up(&mut repo, &mut sessions, "alice", "pw1");
    let id = repo.store().find_active_user("alice").unwrap().id;
    assert_eq!(sessions.resolve(handle), Ok(id));
}

#[test]
fn register_of_a_taken_username_binds_no_session() {
    let mut repo = Repository::new();
    let mut sessions = SessionBinder::new(None);
    let first = signed_up(&mut repo, &mut sessions, "alice", "pw1");
    let r = server::register(&mut repo, &mut sessions, "alice".to_string(), "x".to_string(), SALT);
    assert_eq!(r, Err(Error::UsernameTaken));
    assert!(sessions.resolve(first).is_ok());
}

#[test]
fn register_with_a_bad_salt_fails() {
    let mut repo = Repository::new();
    let mut sessions = SessionBinder::new(None);
    let r = server::register(&mut repo, &mut sessions, "alice".to_string(), "x".to_string(), "");
    assert_eq!(r, Err(Error::HashingFailed));
}

#[test]
fn login_binds_a_new_session() {
    let mut repo = Repository::new();
    let mut sessions = SessionBinder::new(None);
    let first = signed_up(&mut repo, &mut sessions, "alice", "pw1");
    let second = server::login(&repo, &mut sessions, "alice", "pw1").unwrap();
    assert_ne!(first, second);
    assert_eq!(sessions.resolve(second), sessions.resolve(first));
}

#[test]
fn login_failures_bind_nothing() {
    let mut repo = Repository::new();
    let mut sessions = SessionBinder::new(None);
    signed_up(&mut repo, &mut sessions, "alice", "pw1");
    assert_eq!(
        server::login(&repo, &mut sessions, "alice", "nope"),
        Err(Error::InvalidCredentials)
    );
    assert_eq!(server::login(&repo, &mut sessions, "bob", "pw1"), Err(Error::UserNotFound));
}

#[test]
fn logout_invalidates_the_session() {
    let mut repo = Repository::new();
    let mut sessions = SessionBinder::new(None);
    let handle = signed_up(&mut repo, &mut sessions, "alice", "pw1");
    assert_eq!(server::logout(&mut sessions, handle), Ok(()));
    assert_eq!(sessions.resolve(handle), Err(Error::SessionInvalid));
    assert_eq!(server::logout(&mut sessions, handle), Ok(()));
    assert_eq!(server::get_lists(&repo, &sessions, handle), Err(Error::SessionInvalid));
}

#[test]
fn operations_need_a_valid_session() {
    let mut repo = Repository::new();
    let sessions = SessionBinder::new(None);
    let list = List {
        id: 1,
        title: "x".to_string(),
        created_at: due(),
        created_by: 1,
        deleted_at: None,
    };
    let task = Task {
        id: 1,
        list_id: 1,
        title: "x".to_string(),
        due_date: due(),
        created_at: due(),
        created_by: 1,
        completed_at: None,
        completed_by: None,
    };
    assert_eq!(
        server::create_list(&mut repo, &sessions, 9, "x".to_string()),
        Err(Error::SessionInvalid)
    );
    assert_eq!(server::get_lists(&repo, &sessions, 9), Err(Error::SessionInvalid));
    assert_eq!(server::delete_list(&mut repo, &sessions, 9, list), Err(Error::SessionInvalid));
    assert_eq!(
        server::create_task(&mut repo, &sessions, 9, "x".to_string(), due(), 1),
        Err(Error::SessionInvalid)
    );
    assert_eq!(server::complete_task(&mut repo, &sessions, 9, task), Err(Error::SessionInvalid));
    assert_eq!(server::get_tasks(&repo, 1), Ok(vec![]));
}

#[test]
fn lists_are_scoped_by_the_session() {
    let mut repo = Repository::new();
    let mut sessions = SessionBinder::new(None);
    let alice = signed_up(&mut repo, &mut sessions, "alice", "pw1");
    let bob = signed_up(&mut repo, &mut sessions, "bob", "pw2");
    let created = server::create_list(&mut repo, &sessions, alice, "Groceries".to_string()).unwrap();
    assert_eq!(created.title, "Groceries");
    assert_eq!(Ok(created.created_by), sessions.resolve(alice));
    assert_eq!(
        server::create_list(&mut repo, &sessions, alice, String::new()),
        Err(Error::StorageFault(Fault::EmptyTitle))
    );
    let lists = server::get_lists(&repo, &sessions, alice).unwrap();
    assert_eq!(lists, vec![created]);
    assert_eq!(server::get_lists(&repo, &sessions, bob), Ok(vec![]));

    assert_eq!(server::delete_list(&mut repo, &sessions, bob, lists[0].clone()), Ok(()));
    assert_eq!(server::get_lists(&repo, &sessions, alice).unwrap().len(), 1);
    assert_eq!(server::delete_list(&mut repo, &sessions, alice, lists[0].clone()), Ok(()));
    assert_eq!(server::get_lists(&repo, &sessions, alice), Ok(vec![]));
}

#[test]
fn tasks_are_completed_by_the_user_of_the_session() {
    let mut repo = Repository::new();
    let mut sessions = SessionBinder::new(None);
    let alice = signed_up(&mut repo, &mut sessions, "alice", "pw1");
    let bob = signed_up(&mut repo, &mut sessions, "bob", "pw2");
    server::create_list(&mut repo, &sessions, alice, "Groceries".to_string()).unwrap();
    let list = server::get_lists(&repo, &sessions, alice).unwrap().remove(0);
    let created =
        server::create_task(&mut repo, &sessions, alice, "Buy milk".to_string(), due(), list.id)
            .unwrap();
    assert_eq!(Ok(created.created_by), sessions.resolve(alice));
    assert_eq!(
        server::create_task(&mut repo, &sessions, alice, String::new(), due(), list.id),
        Err(Error::StorageFault(Fault::EmptyTitle))
    );
    let task = server::get_tasks(&repo, list.id).unwrap().remove(0);
    assert_eq!(task, created);
    assert_eq!(task.title, "Buy milk");
    assert_eq!(task.due_date, due());
    assert_eq!(task.completed_by, None);

    assert_eq!(server::complete_task(&mut repo, &sessions, bob, task.clone()), Ok(()));
    let done = server::get_tasks(&repo, list.id).unwrap().remove(0);
    assert!(done.completed_at.is_some());
    assert_eq!(done.completed_by, Some("bob".to_string()));

    assert_eq!(server::uncomplete_task(&mut repo, done), Ok(()));
    assert_eq!(server::get_tasks(&repo, list.id), Ok(vec![task]));
}

#[test]
fn register_of_a_taken_username_with_a_bad_salt_is_username_taken() {
    let mut repo = Repository::new();
    let mut sessions = SessionBinder::new(None);
    signed_up(&mut repo, &mut sessions, "alice", "pw1");
    let r = server::register(&mut repo, &mut sessions, "alice".to_string(), "x".to_string(), "");
    assert_eq!(r, Err(Error::UsernameTaken));
}

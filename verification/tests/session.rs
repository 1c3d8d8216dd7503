use todo_lists::model::db::Session;
use todo_lists::model::time::{parse_due_date, Timestamp};
use todo_lists::repository::error::{Error, Fault};
use todo_lists::session::SessionBinder;

fn at(secs: i64, nanos: u32) -> Timestamp {
    Timestamp { secs, nanos }
}

#[test]
fn bound_handle_resolves_to_its_user() {
    let mut binder = SessionBinder::new(None);
    let session = binder.bind(7, 1, at(100, 0));
    assert_eq!(session, Session { id: 7, user_id: 1, created_at: at(100, 0), expires_at: None });
    assert_eq!(binder.resolve_at(7, at(100, 0)), Ok(1));
    assert_eq!(binder.resolve_at(7, at(i64::MAX, 999_999_999)), Ok(1));
    assert_eq!(binder.resolve(7), Ok(1));
}

#[test]
fn unknown_handle_is_invalid() {
    let binder = SessionBinder::new(None);
    assert_eq!(binder.resolve_at(7, at(100, 0)), Err(Error::SessionInvalid));
    assert_eq!(binder.resolve(7), Err(Error::SessionInvalid));
}

#[test]
fn destroyed_handle_is_invalid() {
    let mut binder = SessionBinder::new(None);
    binder.bind(7, 1, at(100, 0));
    binder.bind(8, 2, at(100, 0));
    binder.destroy(7);
    assert_eq!(binder.resolve_at(7, at(100, 0)), Err(Error::SessionInvalid));
    assert_eq!(binder.resolve_at(8, at(100, 0)), Ok(2));
    binder.destroy(7);
    assert_eq!(binder.resolve_at(8, at(100, 0)), Ok(2));
}

#[test]
fn session_expires_when_its_lifetime_has_passed() {
    let mut binder = SessionBinder::new(Some(60));
    let session = binder.bind(7, 1, at(100, 500));
    assert_eq!(session.expires_at, Some(at(160, 500)));
    assert_eq!(binder.resolve_at(7, at(160, 499)), Ok(1));
    assert_eq!(binder.resolve_at(7, at(160, 500)), Err(Error::SessionInvalid));
    assert_eq!(binder.resolve_at(7, at(161, 0)), Err(Error::SessionInvalid));
    assert_eq!(binder.resolve_at(7, at(99, 0)), Ok(1));
}

#[test]
fn expiry_stops_at_the_last_second() {
    let mut binder = SessionBinder::new(Some(60));
    let session = binder.bind(7, 1, at(i64::MAX - 5, 1));
    assert_eq!(session.expires_at, Some(at(i64::MAX, 1)));
}

#[test]
fn rebinding_a_handle_replaces_the_session() {
    let mut binder = SessionBinder::new(None);
    binder.bind(7, 1, at(100, 0));
    binder.bind(7, 2, at(200, 0));
    assert_eq!(binder.resolve_at(7, at(300, 0)), Ok(2));
}

#[test]
fn created_handles_resolve_and_differ() {
    let mut binder = SessionBinder::new(Some(3600));
    let a = binder.create(1);
    let b = binder.create(2);
    assert_ne!(a, b);
    assert_eq!(binder.resolve(a), Ok(1));
    assert_eq!(binder.resolve(b), Ok(2));
}

#[test]
fn session_without_lifetime_left_is_invalid_at_once() {
    let mut binder = SessionBinder::new(Some(0));
    let handle = binder.create(1);
    assert_eq!(binder.resolve(handle), Err(Error::SessionInvalid));
}

#[test]
fn timestamps_order_by_seconds_then_nanoseconds() {
    assert!(at(1, 0).is_before(&at(2, 0)));
    assert!(at(1, 5).is_before(&at(1, 6)));
    assert!(!at(1, 5).is_before(&at(1, 5)));
    assert!(!at(2, 0).is_before(&at(1, 999)));
    assert!(at(-1, 999).is_before(&at(0, 0)));
}

#[test]
fn plus_seconds_adds_and_saturates() {
    assert_eq!(at(100, 7).plus_seconds(60), at(160, 7));
    assert_eq!(at(-10, 0).plus_seconds(0), at(-10, 0));
    assert_eq!(at(i64::MAX, 3).plus_seconds(1), at(i64::MAX, 3));
    assert_eq!(at(i64::MAX - 1, 3).plus_seconds(1), at(i64::MAX, 3));
    assert_eq!(at(0, 0).plus_seconds(u32::MAX), at(4_294_967_295, 0));
}

#[test]
fn midnight_of_a_day_counts_from_the_epoch() {
    assert_eq!(Timestamp::midnight_of_day(719_163), at(0, 0));
    assert_eq!(Timestamp::midnight_of_day(719_164), at(86_400, 0));
    assert_eq!(Timestamp::midnight_of_day(719_162), at(-86_400, 0));
    assert_eq!(Timestamp::midnight_of_day(738_886), at(1_704_067_200, 0));
}

#[test]
fn due_date_is_midnight_utc_of_the_day() {
    assert_eq!(parse_due_date("2024-01-01"), Some(at(1_704_067_200, 0)));
    assert_eq!(parse_due_date("1970-01-01"), Some(at(0, 0)));
    assert_eq!(parse_due_date("1969-12-31"), Some(at(-86_400, 0)));
    assert_eq!(parse_due_date("2015-05-15"), Some(at(1_431_648_000, 0)));
}

#[test]
fn due_date_rejects_what_is_no_day() {
    assert_eq!(parse_due_date(""), None);
    assert_eq!(parse_due_date("2024-02-30"), None);
    assert_eq!(parse_due_date("2024/01/01"), None);
    assert_eq!(parse_due_date("tomorrow"), None);
    assert_eq!(parse_due_date("2024-01-01T00:00:00"), None);
}

#[test]
fn errors_describe_themselves() {
    assert_eq!(Error::UsernameTaken.message(), "User already exists");
    assert_eq!(Error::UserNotFound.message(), "User not found");
    assert_eq!(Error::InvalidCredentials.message(), "Invalid credentials");
    assert_eq!(Error::SessionInvalid.message(), "Session invalid");
    assert_eq!(Error::CorruptCredential.message(), "Corrupt credential");
    assert_eq!(Error::HashingFailed.message(), "Failed to hash password");
    assert_eq!(
        Error::StorageFault(Fault::DuplicateKey).message(),
        "Storage error: duplicate key"
    );
    assert_eq!(
        Error::StorageFault(Fault::RowNotFound).message(),
        "Storage error: no rows returned"
    );
    assert_eq!(
        Error::StorageFault(Fault::EmptyTitle).message(),
        "Storage error: title must not be empty"
    );
    assert_eq!(Fault::EmptyTitle.message(), "title must not be empty");
}

use booty_hunt::db::Db;
use booty_hunt::error::{AppError, ErrorKind};

fn store_failure() -> rusqlite::Error {
    let db = Db::open_in_memory().unwrap();
    db.with_conn(|conn| conn.execute("INSERT INTO no_such_table VALUES (1)", ()))
        .unwrap_err()
}

#[test]
fn every_error_has_its_kind() {
    assert_eq!(AppError::Db(store_failure()).kind(), ErrorKind::Storage);
    assert_eq!(AppError::NotFound("x".into()).kind(), ErrorKind::NotFound);
    assert_eq!(AppError::BadRequest("x".into()).kind(), ErrorKind::Validation);
    assert_eq!(AppError::Conflict("x".into()).kind(), ErrorKind::Conflict);
    assert_eq!(AppError::Internal("x".into()).kind(), ErrorKind::Internal);
}

#[test]
fn every_error_has_its_status_code() {
    assert_eq!(AppError::Db(store_failure()).status_code(), 500);
    assert_eq!(AppError::NotFound("x".into()).status_code(), 404);
    assert_eq!(AppError::BadRequest("x".into()).status_code(), 400);
    assert_eq!(AppError::Conflict("x".into()).status_code(), 409);
    assert_eq!(AppError::Internal("x".into()).status_code(), 500);
}

#[test]
fn public_message_shows_validation_and_conflict_only() {
    assert_eq!(AppError::Db(store_failure()).public_message(), "Database error");
    assert_eq!(AppError::NotFound("Run not found".into()).public_message(), "Not found");
    assert_eq!(
        AppError::BadRequest("Score cannot be negative".into()).public_message(),
        "Score cannot be negative"
    );
    assert_eq!(
        AppError::Conflict("Signal fire expired".into()).public_message(),
        "Signal fire expired"
    );
    assert_eq!(AppError::Internal("secret".into()).public_message(), "Internal error");
}

#[test]
fn message_opens_with_the_heading_of_the_kind() {
    assert_eq!(AppError::NotFound("Run not found".into()).message(), "Not found: Run not found");
    assert_eq!(AppError::BadRequest("bad".into()).message(), "Bad request: bad");
    assert_eq!(AppError::Conflict("taken".into()).message(), "Conflict: taken");
    assert_eq!(AppError::Internal("odd".into()).message(), "Internal error: odd");
    let failure = store_failure();
    let said = failure.to_string();
    assert!(!said.is_empty());
    assert_eq!(AppError::Db(failure).message(), format!("Database error: {}", said));
}

#[test]
fn store_failures_convert_to_storage_errors() {
    let e: AppError = store_failure().into();
    assert!(matches!(e, AppError::Db(_)));
    assert_eq!(e.kind(), ErrorKind::Storage);
}

#[test]
fn error_builders_keep_the_message() {
    assert!(matches!(AppError::bad_request("a"), AppError::BadRequest(m) if m == "a"));
    assert!(matches!(AppError::not_found("b"), AppError::NotFound(m) if m == "b"));
    assert!(matches!(AppError::conflict("c"), AppError::Conflict(m) if m == "c"));
    assert!(matches!(AppError::internal("d"), AppError::Internal(m) if m == "d"));
}

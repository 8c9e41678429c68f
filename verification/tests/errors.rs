use blog_core::errors::{
    AppError, BlockingError, DriverErrorKind, ErrorCategory, StorageFailure,
};

fn driver_error(kind: diesel::result::DatabaseErrorKind, message: &str) -> diesel::result::Error {
    diesel::result::Error::DatabaseError(kind, Box::new(message.to_string()))
}

#[test]
fn unique_violation_is_record_already_exists() {
    let err = driver_error(diesel::result::DatabaseErrorKind::UniqueViolation, "UNIQUE constraint failed: users.username");
    assert_eq!(AppError::from(err), AppError::RecordAlreadyExists);
}

#[test]
fn not_found_is_record_not_found() {
    assert_eq!(AppError::from(diesel::result::Error::NotFound), AppError::RecordNotFound);
}

#[test]
fn other_driver_errors_keep_their_cause() {
    let err = driver_error(diesel::result::DatabaseErrorKind::ForeignKeyViolation, "FOREIGN KEY constraint failed");
    assert_eq!(
        AppError::from(err),
        AppError::DatabaseError("FOREIGN KEY constraint failed".to_string())
    );
    assert_eq!(
        AppError::from(diesel::result::Error::RollbackTransaction),
        AppError::DatabaseError("The current transaction was aborted".to_string())
    );
}

#[test]
fn blocking_error_unwraps_or_cancels() {
    assert_eq!(
        AppError::from(BlockingError::Error(AppError::RecordNotFound)),
        AppError::RecordNotFound
    );
    assert_eq!(
        AppError::from(BlockingError::<AppError>::Canceled),
        AppError::OperationCanceled
    );
}

#[test]
fn messages_are_exact() {
    assert_eq!(AppError::RecordAlreadyExists.message(), "Record violates unique constraint");
    assert_eq!(AppError::RecordNotFound.message(), "Record does not exist");
    assert_eq!(
        AppError::DatabaseError("disk I/O error".to_string()).message(),
        "Database error: disk I/O error"
    );
    assert_eq!(AppError::OperationCanceled.message(), "Operation was canceled");
}

#[test]
fn categories_and_statuses() {
    assert_eq!(AppError::RecordAlreadyExists.category(), ErrorCategory::Conflict);
    assert_eq!(AppError::RecordNotFound.category(), ErrorCategory::NotFound);
    assert_eq!(AppError::DatabaseError(String::new()).category(), ErrorCategory::ServerError);
    assert_eq!(AppError::OperationCanceled.category(), ErrorCategory::ServerError);
    assert_eq!(ErrorCategory::Conflict.status_code(), 409);
    assert_eq!(ErrorCategory::NotFound.status_code(), 404);
    assert_eq!(ErrorCategory::ServerError.status_code(), 500);
}

#[test]
fn classify_maps_each_failure() {
    assert_eq!(AppError::classify(StorageFailure::UniqueViolation), AppError::RecordAlreadyExists);
    assert_eq!(AppError::classify(StorageFailure::NotFound), AppError::RecordNotFound);
    assert_eq!(
        AppError::classify(StorageFailure::Other("locked".to_string())),
        AppError::DatabaseError("locked".to_string())
    );
}

#[test]
fn error_response_carries_status_and_message() {
    let response = AppError::RecordNotFound.error_response();
    assert_eq!(response.status, 404);
    assert_eq!(response.err, "Record does not exist");
    let rendered = AppError::RecordAlreadyExists.render_response();
    assert_eq!(rendered.status, 409);
    assert_eq!(rendered.err, "Record violates unique constraint");
}

#[test]
fn every_other_variant_is_a_database_error() {
    assert_eq!(
        AppError::from(diesel::result::Error::AlreadyInTransaction),
        AppError::DatabaseError(
            "Cannot perform this operation while a transaction is open".to_string()
        )
    );
    assert_eq!(
        AppError::from(diesel::result::Error::QueryBuilderError("no changes".into())),
        AppError::DatabaseError("no changes".to_string())
    );
    assert_eq!(
        AppError::from(diesel::result::Error::__Nonexhaustive),
        AppError::DatabaseError(String::new())
    );
    let not_unique = driver_error(diesel::result::DatabaseErrorKind::__Unknown, "disk full");
    assert_eq!(AppError::from(not_unique), AppError::DatabaseError("disk full".to_string()));
}

#[test]
fn database_error_body_is_the_same_for_every_cause() {
    let first = AppError::DatabaseError("disk I/O error".to_string());
    let second = AppError::DatabaseError("database is locked".to_string());
    assert_eq!(first.error_response(), second.error_response());
    assert_eq!(first.render_response(), second.render_response());
    assert_eq!(first.error_response().status, 500);
    assert_eq!(first.error_response().err, "Database error");
    assert_eq!(first.body_text(), "Database error");
    assert_eq!(first.message(), "Database error: disk I/O error");
}

#[test]
fn body_text_is_the_message_for_the_other_kinds() {
    assert_eq!(AppError::RecordAlreadyExists.body_text(), "Record violates unique constraint");
    assert_eq!(AppError::RecordNotFound.body_text(), "Record does not exist");
    assert_eq!(AppError::OperationCanceled.body_text(), "Operation was canceled");
    assert_eq!(AppError::OperationCanceled.error_response().status, 500);
    assert_eq!(AppError::OperationCanceled.error_response().err, "Operation was canceled");
}

#[test]
fn from_driver_groups_the_variants() {
    let cause = || "cause".to_string();
    assert_eq!(
        StorageFailure::from_driver(DriverErrorKind::UniqueViolation, cause()),
        StorageFailure::UniqueViolation
    );
    assert_eq!(
        StorageFailure::from_driver(DriverErrorKind::NotFound, cause()),
        StorageFailure::NotFound
    );
    for kind in [
        DriverErrorKind::InvalidCString,
        DriverErrorKind::ForeignKeyViolation,
        DriverErrorKind::UnableToSendCommand,
        DriverErrorKind::SerializationFailure,
        DriverErrorKind::UnknownDatabaseError,
        DriverErrorKind::QueryBuilderError,
        DriverErrorKind::DeserializationError,
        DriverErrorKind::SerializationError,
        DriverErrorKind::RollbackTransaction,
        DriverErrorKind::AlreadyInTransaction,
        DriverErrorKind::Unlisted,
    ] {
        assert_eq!(StorageFailure::from_driver(kind, cause()), StorageFailure::Other(cause()));
    }
}

#[test]
fn each_kind_of_database_error_but_unique_keeps_its_message() {
    for kind in [
        diesel::result::DatabaseErrorKind::UnableToSendCommand,
        diesel::result::DatabaseErrorKind::SerializationFailure,
    ] {
        assert_eq!(
            AppError::from(driver_error(kind, "failed")),
            AppError::DatabaseError("failed".to_string())
        );
    }
    assert_eq!(
        AppError::from(diesel::result::Error::DeserializationError("bad column".into())),
        AppError::DatabaseError("bad column".to_string())
    );
    assert_eq!(
        AppError::from(diesel::result::Error::SerializationError("bad value".into())),
        AppError::DatabaseError("bad value".to_string())
    );
}

//! The closed taxonomy of errors that cross the repository boundary, and the
//! classifier that maps a storage failure to one of its kinds.

use vstd::prelude::*;
use vstd::string::*;
use vstd::std_specs::convert::FromSpecImpl;
use diesel::result::{DatabaseErrorKind, Error};
use std::fmt::Write;

verus! {

/// What the classifier reads of a failure of the storage layer.
#[derive(Debug, PartialEq, Eq)]
pub enum StorageFailure {
    /// An insert broke a uniqueness constraint.
    UniqueViolation,
    /// A lookup of a single row found none.
    NotFound,
    /// Any other failure, with a rendering of its cause.
    Other(String),
}

/// Mathematical value of a [`StorageFailure`].
pub enum StorageFailureView {
    UniqueViolation,
    NotFound,
    Other(Seq<char>),
}

impl View for StorageFailure {
    type V = StorageFailureView;

    open spec fn view(&self) -> StorageFailureView {
        match *self {
            StorageFailure::UniqueViolation => StorageFailureView::UniqueViolation,
            StorageFailure::NotFound => StorageFailureView::NotFound,
            StorageFailure::Other(cause) => StorageFailureView::Other(cause@),
        }
    }
}

/// An error of the blog's data layer.
#[derive(Debug, PartialEq, Eq)]
pub enum AppError {
    /// An insert violated a uniqueness constraint.
    RecordAlreadyExists,
    /// A lookup of a single row found no row.
    RecordNotFound,
    /// Any other failure of the storage layer, with its cause for the log.
    DatabaseError(String),
    /// The unit of work was dropped before it ran.
    OperationCanceled,
}

/// Mathematical value of an [`AppError`].
pub enum AppErrorView {
    RecordAlreadyExists,
    RecordNotFound,
    DatabaseError(Seq<char>),
    OperationCanceled,
}

impl View for AppError {
    type V = AppErrorView;

    open spec fn view(&self) -> AppErrorView {
        match *self {
            AppError::RecordAlreadyExists => AppErrorView::RecordAlreadyExists,
            AppError::RecordNotFound => AppErrorView::RecordNotFound,
            AppError::DatabaseError(cause) => AppErrorView::DatabaseError(cause@),
            AppError::OperationCanceled => AppErrorView::OperationCanceled,
        }
    }
}

/// The externally visible category of an error.
#[derive(Debug, Clone, Copy, PartialEq, Eq, Structural)]
pub enum ErrorCategory {
    /// The request conflicts with what is stored: a client error.
    Conflict,
    /// The requested row does not exist.
    NotFound,
    /// The failure is the server's.
    ServerError,
}

impl ErrorCategory {
    /// The HTTP status that stands for this category.
    pub open spec fn status(self) -> int {
        match self {
            ErrorCategory::Conflict => 409,
            ErrorCategory::NotFound => 404,
            ErrorCategory::ServerError => 500,
        }
    }

    /// The HTTP status that stands for this category.
    pub fn status_code(self) -> (code: u16)
        ensures
            code == self.status(),
    {
        match self {
            ErrorCategory::Conflict => 409,
            ErrorCategory::NotFound => 404,
            ErrorCategory::ServerError => 500,
        }
    }
}

impl StorageFailureView {
    /// The one kind of error that a storage failure is classified as.
    pub open spec fn classified(self) -> AppErrorView {
        match self {
            StorageFailureView::UniqueViolation => AppErrorView::RecordAlreadyExists,
            StorageFailureView::NotFound => AppErrorView::RecordNotFound,
            StorageFailureView::Other(cause) => AppErrorView::DatabaseError(cause),
        }
    }
}

impl AppErrorView {
    /// The category under which the error is shown to a client.
    pub open spec fn category(self) -> ErrorCategory {
        match self {
            AppErrorView::RecordAlreadyExists => ErrorCategory::Conflict,
            AppErrorView::RecordNotFound => ErrorCategory::NotFound,
            AppErrorView::DatabaseError(_) => ErrorCategory::ServerError,
            AppErrorView::OperationCanceled => ErrorCategory::ServerError,
        }
    }

    /// The human-readable message of the error, for the log: that of a
    /// `DatabaseError` ends with the cause.
    pub open spec fn message(self) -> Seq<char> {
        match self {
            AppErrorView::RecordAlreadyExists => "Record violates unique constraint"@,
            AppErrorView::RecordNotFound => "Record does not exist"@,
            AppErrorView::DatabaseError(cause) => "Database error: "@ + cause,
            AppErrorView::OperationCanceled => "Operation was canceled"@,
        }
    }

    /// The text that a client is shown: the message, but for a
    /// `DatabaseError`, of which a client sees one fixed text and nothing of
    /// the cause.
    pub open spec fn body_text(self) -> Seq<char> {
        match self {
            AppErrorView::DatabaseError(_) => "Database error"@,
            _ => self.message(),
        }
    }
}

/// What a client sees of an error depends on its kind alone: two
/// `DatabaseError`s have the same status and the same body, whatever their
/// causes.
pub proof fn cause_stays_out_of_the_response(first: Seq<char>, second: Seq<char>)
    ensures
        AppErrorView::DatabaseError(first).category() == AppErrorView::DatabaseError(
            second,
        ).category(),
        AppErrorView::DatabaseError(first).body_text() == AppErrorView::DatabaseError(
            second,
        ).body_text(),
{
}

/// The body and status of the response that reports an error: the body is
/// the object `{"err": <err>}`.
#[derive(Debug, PartialEq, Eq)]
pub struct ErrorResponse {
    pub status: u16,
    pub err: String,
}

impl AppError {
    /// Classifies a storage failure as exactly one kind of error: a broken
    /// uniqueness constraint as `RecordAlreadyExists`, a missing row as
    /// `RecordNotFound`, anything else as `DatabaseError` with its cause.
    pub fn classify(failure: StorageFailure) -> (error: AppError)
        ensures
            error@ == failure@.classified(),
    {
        match failure {
            StorageFailure::UniqueViolation => AppError::RecordAlreadyExists,
            StorageFailure::NotFound => AppError::RecordNotFound,
            StorageFailure::Other(cause) => AppError::DatabaseError(cause),
        }
    }

    /// The category under which the error is shown to a client.
    pub fn category(&self) -> (category: ErrorCategory)
        ensures
            category == self@.category(),
    {
        match self {
            AppError::RecordAlreadyExists => ErrorCategory::Conflict,
            AppError::RecordNotFound => ErrorCategory::NotFound,
            AppError::DatabaseError(_) => ErrorCategory::ServerError,
            AppError::OperationCanceled => ErrorCategory::ServerError,
        }
    }

    /// The human-readable message of the error.
    pub fn message(&self) -> (text: String)
        ensures
            text@ == self@.message(),
    {
        match self {
            AppError::RecordAlreadyExists => "Record violates unique constraint".to_owned(),
            AppError::RecordNotFound => "Record does not exist".to_owned(),
            AppError::DatabaseError(cause) => {
                let mut text = "Database error: ".to_owned();
                text.append(cause.as_str());
                text
            },
            AppError::OperationCanceled => "Operation was canceled".to_owned(),
        }
    }

    /// The text that a client is shown: nothing of a `DatabaseError`'s cause
    /// is in it.
    pub fn body_text(&self) -> (text: String)
        ensures
            text@ == self@.body_text(),
    {
        match self {
            AppError::DatabaseError(_) => "Database error".to_owned(),
            _ => self.message(),
        }
    }

    /// The response that reports this error: the status of its category, and
    /// as the body's `err` field the text that a client is shown.
    pub fn error_response(&self) -> (response: ErrorResponse)
        ensures
            response.status == self@.category().status(),
            response.err@ == self@.body_text(),
    {
        ErrorResponse { status: self.category().status_code(), err: self.body_text() }
    }

    /// The response that is rendered for this error: that of
    /// [`AppError::error_response`].
    pub fn render_response(&self) -> (response: ErrorResponse)
        ensures
            response.status == self@.category().status(),
            response.err@ == self@.body_text(),
    {
        self.error_response()
    }
}

/// How a unit of work that was handed to a worker ended without a value.
#[derive(Debug, PartialEq, Eq)]
pub enum BlockingError<E> {
    /// The work ran and failed.
    Error(E),
    /// The work was dropped before it ran.
    Canceled,
}

impl From<BlockingError<AppError>> for AppError {
    fn from(err: BlockingError<AppError>) -> (error: AppError) {
        match err {
            BlockingError::Error(inner) => inner,
            BlockingError::Canceled => AppError::OperationCanceled,
        }
    }
}

impl FromSpecImpl<BlockingError<AppError>> for AppError {
    open spec fn obeys_from_spec() -> bool {
        true
    }

    open spec fn from_spec(err: BlockingError<AppError>) -> AppError {
        match err {
            BlockingError::Error(inner) => inner,
            BlockingError::Canceled => AppError::OperationCanceled,
        }
    }
}

/// The storage driver's error type. Its values are opaque here.
#[verifier::external_type_specification]
#[verifier::external_body]
pub struct ExStorageDriverError(diesel::result::Error);

/// Which variant an error of the storage driver is. A `DatabaseError` is told
/// apart further by the kind that the driver gave it.
#[derive(Debug, Clone, Copy, PartialEq, Eq, Structural)]
pub enum DriverErrorKind {
    InvalidCString,
    UniqueViolation,
    ForeignKeyViolation,
    UnableToSendCommand,
    SerializationFailure,
    UnknownDatabaseError,
    NotFound,
    QueryBuilderError,
    DeserializationError,
    SerializationError,
    RollbackTransaction,
    AlreadyInTransaction,
    /// The variant that the driver keeps for itself and never hands out.
    Unlisted,
}

impl StorageFailureView {
    /// What a driver error of the variant `kind`, rendered as `cause`, says
    /// of the failure: a `DatabaseError` of the kind `UniqueViolation` is a
    /// broken uniqueness constraint, `NotFound` is a missing row, and every
    /// other variant is another failure with that cause.
    pub open spec fn from_driver(kind: DriverErrorKind, cause: Seq<char>) -> StorageFailureView {
        match kind {
            DriverErrorKind::UniqueViolation => StorageFailureView::UniqueViolation,
            DriverErrorKind::NotFound => StorageFailureView::NotFound,
            _ => StorageFailureView::Other(cause),
        }
    }
}

impl StorageFailure {
    /// What a driver error of the variant `kind`, rendered as `cause`, says
    /// of the failure.
    pub fn from_driver(kind: DriverErrorKind, cause: String) -> (failure: StorageFailure)
        ensures
            failure@ == StorageFailureView::from_driver(kind, cause@),
    {
        match kind {
            DriverErrorKind::UniqueViolation => StorageFailure::UniqueViolation,
            DriverErrorKind::NotFound => StorageFailure::NotFound,
            _ => StorageFailure::Other(cause),
        }
    }
}

/// The variant of the storage driver's error `err`.
pub uninterp spec fn driver_error_kind(err: diesel::result::Error) -> DriverErrorKind;

/// The text that the `Display` of the storage driver's error `err` writes.
pub uninterp spec fn driver_error_text(err: diesel::result::Error) -> Seq<char>;

/// What the storage driver's error `err` says of the failure. The variant
/// that the driver never hands out has no rendering, and counts as another
/// failure without a cause.
pub open spec fn reported_failure(err: diesel::result::Error) -> StorageFailureView {
    StorageFailureView::from_driver(
        driver_error_kind(err),
        if driver_error_kind(err) == DriverErrorKind::Unlisted {
            Seq::empty()
        } else {
            driver_error_text(err)
        },
    )
}

/// Tells the variants of `diesel::result::Error` apart, and for its
/// `DatabaseError` those of `diesel::result::DatabaseErrorKind`, one arm
/// each. The contract names the outcome: it is a function of the error alone.
#[verifier::external_body]
fn kind_of(err: &Error) -> (kind: DriverErrorKind)
    ensures
        kind == driver_error_kind(*err),
{
    match err {
        Error::InvalidCString(_) => DriverErrorKind::InvalidCString,
        Error::DatabaseError(DatabaseErrorKind::UniqueViolation, _) => DriverErrorKind::UniqueViolation,
        Error::DatabaseError(DatabaseErrorKind::ForeignKeyViolation, _) => DriverErrorKind::ForeignKeyViolation,
        Error::DatabaseError(DatabaseErrorKind::UnableToSendCommand, _) => DriverErrorKind::UnableToSendCommand,
        Error::DatabaseError(DatabaseErrorKind::SerializationFailure, _) => DriverErrorKind::SerializationFailure,
        Error::DatabaseError(DatabaseErrorKind::__Unknown, _) => DriverErrorKind::UnknownDatabaseError,
        Error::NotFound => DriverErrorKind::NotFound,
        Error::QueryBuilderError(_) => DriverErrorKind::QueryBuilderError,
        Error::DeserializationError(_) => DriverErrorKind::DeserializationError,
        Error::SerializationError(_) => DriverErrorKind::SerializationError,
        Error::RollbackTransaction => DriverErrorKind::RollbackTransaction,
        Error::AlreadyInTransaction => DriverErrorKind::AlreadyInTransaction,
        Error::__Nonexhaustive => DriverErrorKind::Unlisted,
    }
}

/// Renders a `diesel::result::Error` through its `Display` into a `String`.
/// That `Display` does not return for the variant that the driver never
/// hands out, which the precondition leaves out. Where the rendering stops
/// with an error, the text is what was written until then. The contract
/// names the outcome: it is a function of the error alone.
#[verifier::external_body]
fn text_of(err: &Error) -> (text: String)
    requires
        driver_error_kind(*err) != DriverErrorKind::Unlisted,
    ensures
        text@ == driver_error_text(*err),
{
    let mut text = String::new();
    let _ = write!(text, "{}", err);
    text
}

impl From<diesel::result::Error> for AppError {
    /// Classifies an error of the storage driver.
    fn from(err: diesel::result::Error) -> (error: AppError)
        ensures
            error@ == reported_failure(err).classified(),
    {
        let kind = kind_of(&err);
        let cause = match kind {
            DriverErrorKind::Unlisted => String::new(),
            _ => text_of(&err),
        };
        AppError::classify(StorageFailure::from_driver(kind, cause))
    }
}

impl FromSpecImpl<diesel::result::Error> for AppError {
    open spec fn obeys_from_spec() -> bool {
        false
    }

    open spec fn from_spec(err: diesel::result::Error) -> AppError {
        choose|error: AppError| error@ == reported_failure(err).classified()
    }
}

} // verus!

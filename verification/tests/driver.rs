use std::error::Error as StdError;
use std::fmt;

use sqlx::error::{DatabaseError, ErrorKind as DriverKind};
use sqlx::postgres::{PgQueryResult, PgRow};

use user_crud::driver::{
    failure_of, reply_of_decoded, reply_of_error, reply_of_result, reply_of_rows, user_of_columns,
};
use user_crud::error::{ErrorKind, Failure, Fault, RepoError, Violation};
use user_crud::user::User;
use user_crud::reply::Reply;
use user_crud::repository::{create_outcome, delete_outcome, read_outcome};

/// An error of the store, made up for the tests.
#[derive(Debug)]
struct StoreSaid {
    code: DriverKind,
    constraint: Option<&'static str>,
}

impl fmt::Display for StoreSaid {
    fn fmt(&self, f: &mut fmt::Formatter<'_>) -> fmt::Result {
        f.write_str("the store said no")
    }
}

impl StdError for StoreSaid {}

impl DatabaseError for StoreSaid {
    fn message(&self) -> &str {
        "the store said no"
    }

    fn as_error(&self) -> &(dyn StdError + Send + Sync + 'static) {
        self
    }

    fn as_error_mut(&mut self) -> &mut (dyn StdError + Send + Sync + 'static) {
        self
    }

    fn into_error(self: Box<Self>) -> Box<dyn StdError + Send + Sync + 'static> {
        self
    }

    fn constraint(&self) -> Option<&str> {
        self.constraint
    }

    fn kind(&self) -> DriverKind {
        match self.code {
            DriverKind::UniqueViolation => DriverKind::UniqueViolation,
            DriverKind::ForeignKeyViolation => DriverKind::ForeignKeyViolation,
            DriverKind::NotNullViolation => DriverKind::NotNullViolation,
            DriverKind::CheckViolation => DriverKind::CheckViolation,
            _ => DriverKind::Other,
        }
    }
}

fn store_error(code: DriverKind, constraint: Option<&'static str>) -> sqlx::Error {
    sqlx::Error::Database(Box::new(StoreSaid { code, constraint }))
}

#[test]
fn pool_timeout_is_told_apart() {
    let failure = failure_of(&sqlx::Error::PoolTimedOut);
    assert_eq!(failure.fault, Fault::PoolTimedOut);
    assert_eq!(failure.violation, None);
    assert_eq!(failure.constraint, None);
    assert_eq!(failure.message, "pool timed out while waiting for an open connection");
}

#[test]
fn closed_pool_and_crashed_worker_are_told_apart() {
    assert_eq!(failure_of(&sqlx::Error::PoolClosed).fault, Fault::PoolClosed);
    assert_eq!(failure_of(&sqlx::Error::WorkerCrashed).fault, Fault::WorkerCrashed);
}

#[test]
fn transport_errors_are_told_apart() {
    let io = sqlx::Error::Io(std::io::Error::new(std::io::ErrorKind::BrokenPipe, "broken pipe"));
    let failure = failure_of(&io);
    assert_eq!(failure.fault, Fault::Io);
    assert_eq!(failure.message, "error communicating with database: broken pipe");
    let tls = sqlx::Error::Tls("bad certificate".into());
    assert_eq!(failure_of(&tls).fault, Fault::Tls);
}

#[test]
fn every_other_driver_error_is_other() {
    assert_eq!(failure_of(&sqlx::Error::RowNotFound).fault, Fault::Other);
    assert_eq!(failure_of(&sqlx::Error::Protocol("garbled".to_string())).fault, Fault::Other);
    assert_eq!(failure_of(&sqlx::Error::ColumnNotFound("id".to_string())).fault, Fault::Other);
    let failure = failure_of(&sqlx::Error::ColumnNotFound("id".to_string()));
    assert_eq!(failure.message, "no column found for name: id");
    assert_eq!(failure.violation, None);
}

#[test]
fn unique_violation_carries_rule_constraint_and_message() {
    let failure = failure_of(&store_error(DriverKind::UniqueViolation, Some("users_email_key")));
    assert_eq!(failure.fault, Fault::Database);
    assert_eq!(failure.violation, Some(Violation::Unique));
    assert_eq!(failure.constraint, Some("users_email_key".to_string()));
    assert_eq!(failure.message, "error returned from database: the store said no");
}

#[test]
fn each_violation_of_the_driver_has_its_own_rule() {
    let of = |code| failure_of(&store_error(code, None)).violation;
    assert_eq!(of(DriverKind::UniqueViolation), Some(Violation::Unique));
    assert_eq!(of(DriverKind::ForeignKeyViolation), Some(Violation::ForeignKey));
    assert_eq!(of(DriverKind::NotNullViolation), Some(Violation::NotNull));
    assert_eq!(of(DriverKind::CheckViolation), Some(Violation::Check));
    assert_eq!(of(DriverKind::Other), None);
}

#[test]
fn store_error_without_violation_keeps_its_constraint_name() {
    let failure = failure_of(&store_error(DriverKind::Other, Some("users_pkey")));
    assert_eq!(failure.fault, Fault::Database);
    assert_eq!(failure.violation, None);
    assert_eq!(failure.constraint, Some("users_pkey".to_string()));
}

#[test]
fn failed_statement_replies_with_its_failure() {
    let reply = reply_of_error(&store_error(DriverKind::UniqueViolation, Some("users_email_key")));
    assert_eq!(
        create_outcome(reply),
        Err(RepoError {
            kind: ErrorKind::ConstraintViolation,
            message: "error returned from database: the store said no".to_string(),
            constraint: Some("users_email_key".to_string()),
        })
    );
    let reply = reply_of_error(&sqlx::Error::PoolClosed);
    assert_eq!(read_outcome(reply).unwrap_err().kind, ErrorKind::ConnectionError);
}

#[test]
fn untouched_result_counts_no_row() {
    let result = PgQueryResult::default();
    assert_eq!(reply_of_result(&result), Reply::Affected(0));
    assert_eq!(delete_outcome(reply_of_result(&result)), Ok(false));
}

#[test]
fn extended_result_counts_the_sum() {
    let mut result = PgQueryResult::default();
    result.extend(vec![PgQueryResult::default(), PgQueryResult::default()]);
    assert_eq!(reply_of_result(&result), Reply::Affected(0));
}

#[test]
fn no_rows_make_an_empty_reply() {
    let rows: Vec<PgRow> = Vec::new();
    assert_eq!(reply_of_rows(&rows), Reply::Rows(vec![]));
    assert_eq!(read_outcome(reply_of_rows(&rows)), Ok(None));
}

fn undecoded(column: &str) -> Failure {
    failure_of(&sqlx::Error::ColumnNotFound(column.to_string()))
}

#[test]
fn three_decoded_columns_make_a_user() {
    let user = user_of_columns(Ok(7), Ok("Ann".to_string()), Ok("ann@example.com".to_string()));
    assert_eq!(
        user,
        Ok(User { id: 7, name: "Ann".to_string(), email: "ann@example.com".to_string() })
    );
}

#[test]
fn first_undecoded_column_decides_the_failure() {
    let name = || Ok("Ann".to_string());
    assert_eq!(user_of_columns(Err(undecoded("id")), name(), name()), Err(undecoded("id")));
    assert_eq!(user_of_columns(Ok(1), Err(undecoded("name")), name()), Err(undecoded("name")));
    assert_eq!(user_of_columns(Ok(1), name(), Err(undecoded("email"))), Err(undecoded("email")));
    assert_eq!(
        user_of_columns(Err(undecoded("id")), Err(undecoded("name")), Err(undecoded("email"))),
        Err(undecoded("id"))
    );
    assert_eq!(
        user_of_columns(Ok(1), Err(undecoded("name")), Err(undecoded("email"))),
        Err(undecoded("name"))
    );
}

#[test]
fn decoded_rows_keep_their_order() {
    let ann = User::new(1, "Ann".to_string(), "ann@example.com".to_string());
    let ben = User::new(2, "Ben".to_string(), "ben@example.com".to_string());
    let decoded = vec![Ok(ann.clone()), Ok(ben.clone())];
    assert_eq!(reply_of_decoded(&decoded), Reply::Rows(vec![ann, ben]));
    assert_eq!(reply_of_decoded(&Vec::new()), Reply::Rows(vec![]));
}

#[test]
fn first_undecoded_row_decides_the_reply() {
    let ann = User::new(1, "Ann".to_string(), "ann@example.com".to_string());
    let decoded =
        vec![Ok(ann.clone()), Err(undecoded("name")), Ok(ann.clone()), Err(undecoded("email"))];
    assert_eq!(reply_of_decoded(&decoded), Reply::Failed(undecoded("name")));
    let decoded = vec![Err(undecoded("id")), Ok(ann)];
    assert_eq!(reply_of_decoded(&decoded), Reply::Failed(undecoded("id")));
}

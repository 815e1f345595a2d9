//! The values of the database driver, turned into the plain values that the
//! rest of the crate decides on.
//!
//! Three types of `sqlx` pass through here unopened: its error, a row of a
//! PostgreSQL result and the summary of an executed statement. What is read
//! from them is read by the short functions at the head of this file, whose
//! bodies are not verified; each says above its header what is taken on trust.
//! Where the driver's source shows that a reading depends on the value read
//! alone, the reading has a name, and the contracts below speak of that name.

use vstd::prelude::*;
use sqlx::Row;
use crate::error::{Failure, FailureView, Fault, Violation};
use crate::reply::{Reply, ReplyView};
use crate::user::{User, UserView, user_views};

verus! {

/// `sqlx::Error`, the driver's error, carried through unopened.
#[verifier::external_type_specification]
#[verifier::external_body]
pub struct ExDriverError(sqlx::Error);

/// `sqlx::postgres::PgRow`, one row of a result, carried through unopened.
#[verifier::external_type_specification]
#[verifier::external_body]
pub struct ExRow(sqlx::postgres::PgRow);

/// `sqlx::postgres::PgQueryResult`, the summary of an executed statement,
/// carried through unopened.
#[verifier::external_type_specification]
#[verifier::external_body]
pub struct ExQueryResult(sqlx::postgres::PgQueryResult);

/// The [`Fault`] that stands for the variant of a driver's error.
pub uninterp spec fn driver_fault(error: sqlx::Error) -> Fault;

/// The number of changed rows that the summary of an executed statement holds.
pub uninterp spec fn affected_rows(result: sqlx::postgres::PgQueryResult) -> u64;

/// What the driver decodes the named column of a row to, as a 32-bit integer.
pub uninterp spec fn int_column_of(row: sqlx::postgres::PgRow, name: Seq<char>) -> Result<
    i32,
    sqlx::Error,
>;

/// What the driver decodes the named column of a row to, as text.
pub uninterp spec fn text_column_of(row: sqlx::postgres::PgRow, name: Seq<char>) -> Result<
    Seq<char>,
    sqlx::Error,
>;

/// Tells the variants of `sqlx::Error` apart: the variants that have a
/// [`Fault`] of their own are mapped to it one for one, every other variant,
/// present or future, to `Fault::Other`. The variant is part of the error's
/// value, so the result is named: it is [`driver_fault`] of the error.
#[verifier::external_body]
fn fault_of(error: &sqlx::Error) -> (fault: Fault)
    ensures
        fault == driver_fault(*error),
{
    match error {
        sqlx::Error::PoolTimedOut => Fault::PoolTimedOut,
        sqlx::Error::PoolClosed => Fault::PoolClosed,
        sqlx::Error::WorkerCrashed => Fault::WorkerCrashed,
        sqlx::Error::Io(_) => Fault::Io,
        sqlx::Error::Tls(_) => Fault::Tls,
        sqlx::Error::Database(_) => Fault::Database,
        _ => Fault::Other,
    }
}

/// Calls `DatabaseError::kind` on the error that the store returned, reached
/// through `sqlx::Error::as_database_error`. Nothing is claimed of the result:
/// the call goes through a trait object, and what an implementation of the
/// trait answers is its own affair. It is `None` where the error is not one of
/// the store's or its kind is not one of the four violations.
#[verifier::external_body]
fn violation_of(error: &sqlx::Error) -> Option<Violation> {
    match error.as_database_error()?.kind() {
        sqlx::error::ErrorKind::UniqueViolation => Some(Violation::Unique),
        sqlx::error::ErrorKind::ForeignKeyViolation => Some(Violation::ForeignKey),
        sqlx::error::ErrorKind::NotNullViolation => Some(Violation::NotNull),
        sqlx::error::ErrorKind::CheckViolation => Some(Violation::Check),
        _ => None,
    }
}

/// Calls `DatabaseError::constraint` on the error that the store returned,
/// reached through `sqlx::Error::as_database_error`. Nothing is claimed of the
/// result, for the same reason as for the kind: it is the constraint's name
/// where the error is one of the store's and the store gave a name.
#[verifier::external_body]
fn constraint_of(error: &sqlx::Error) -> Option<String> {
    Some(error.as_database_error()?.constraint()?.to_owned())
}

/// Calls `to_string` on a `sqlx::Error`, which writes the error's `Display`
/// form. Nothing is claimed of the text: for an error of the operating system
/// it is the system's wording, which may differ from one machine to the next.
#[verifier::external_body]
fn message_of(error: &sqlx::Error) -> String {
    error.to_string()
}

/// Calls `Row::try_get` for a 32-bit integer column of the given name. The
/// driver looks the column up by name and decodes the bytes that the row holds
/// for it, so the result is named: it is [`int_column_of`] of the row and the
/// name. The driver fails where the column is missing, is null or holds
/// another type; nothing is claimed of when that is.
#[verifier::external_body]
fn int_column(row: &sqlx::postgres::PgRow, name: &str) -> (read: Result<i32, sqlx::Error>)
    ensures
        read == int_column_of(*row, name@),
{
    row.try_get::<i32, &str>(name)
}

/// Calls `Row::try_get` for a text column of the given name. The driver looks
/// the column up by name and decodes the bytes that the row holds for it, so
/// the result is named: its characters, or its error, are [`text_column_of`]
/// of the row and the name. The driver fails where the column is missing, is
/// null or holds another type; nothing is claimed of when that is.
#[verifier::external_body]
fn text_column(row: &sqlx::postgres::PgRow, name: &str) -> (read: Result<String, sqlx::Error>)
    ensures
        match read {
            Ok(text) => text_column_of(*row, name@) == Ok::<Seq<char>, sqlx::Error>(text@),
            Err(error) => text_column_of(*row, name@) == Err::<Seq<char>, sqlx::Error>(error),
        },
{
    row.try_get::<String, &str>(name)
}

/// Calls `PgQueryResult::rows_affected`, which hands out the count that the
/// summary holds: the result is [`affected_rows`] of the summary.
#[verifier::external_body]
fn rows_affected(result: &sqlx::postgres::PgQueryResult) -> (count: u64)
    ensures
        count == affected_rows(*result),
{
    result.rows_affected()
}

/// Whether `failure` is a reading of `error`: its fault is the one that stands
/// for the error's variant, and a rule and a constraint's name are there only
/// for an error of the store. The rule, the name and the message are the
/// driver's words, of which nothing more is fixed.
pub open spec fn reads_as(error: sqlx::Error, failure: FailureView) -> bool {
    failure.fault == driver_fault(error) && failure.well_formed()
}

/// The driver's error as plain values: the fault that stands for its variant,
/// and the rule, the constraint's name and the message that the driver gives
/// for it, the first two kept for an error of the store only.
pub fn failure_of(error: &sqlx::Error) -> (failure: Failure)
    ensures
        reads_as(*error, failure@),
{
    Failure::new(fault_of(error), violation_of(error), constraint_of(error), message_of(error))
}

/// A column read as a 32-bit integer, as the rest of the crate takes it: the
/// number, or the driver's error as a failure.
fn int_read(read: Result<i32, sqlx::Error>) -> (r: Result<i32, Failure>)
    ensures
        match read {
            Ok(value) => r == Ok::<i32, Failure>(value),
            Err(error) => r matches Err(failure) && reads_as(error, failure@),
        },
{
    match read {
        Ok(value) => Ok(value),
        Err(error) => Err(failure_of(&error)),
    }
}

/// A column read as text, as the rest of the crate takes it: the text, or the
/// driver's error as a failure.
fn text_read(read: Result<String, sqlx::Error>) -> (r: Result<String, Failure>)
    ensures
        match read {
            Ok(text) => r matches Ok(kept) && kept@ == text@,
            Err(error) => r matches Err(failure) && reads_as(error, failure@),
        },
{
    match read {
        Ok(text) => Ok(text),
        Err(error) => Err(failure_of(&error)),
    }
}

/// The user made of three columns: all three values where all three were
/// decoded, and otherwise the failure of the first, in the order `id`, `name`,
/// `email`, that was not. No user is made of fewer than three columns.
pub fn user_of_columns(
    id: Result<i32, Failure>,
    name: Result<String, Failure>,
    email: Result<String, Failure>,
) -> (r: Result<User, Failure>)
    ensures
        match (id, name, email) {
            (Ok(i), Ok(n), Ok(e)) => r matches Ok(user) && user@ == (UserView {
                id: i as int,
                name: n@,
                email: e@,
            }),
            (Err(f), _, _) => r matches Err(g) && g@ == f@,
            (Ok(_), Err(f), _) => r matches Err(g) && g@ == f@,
            (Ok(_), Ok(_), Err(f)) => r matches Err(g) && g@ == f@,
        },
{
    match id {
        Err(failure) => Err(failure),
        Ok(id) => match name {
            Err(failure) => Err(failure),
            Ok(name) => match email {
                Err(failure) => Err(failure),
                Ok(email) => Ok(User::new(id, name, email)),
            },
        },
    }
}

/// What a row decodes to: the user made of its columns `id`, `name` and
/// `email` where the driver decodes all three, and otherwise the driver's
/// error for the first of them, in that order, that it does not decode.
pub open spec fn row_user(row: sqlx::postgres::PgRow) -> Result<UserView, sqlx::Error> {
    match int_column_of(row, "id"@) {
        Err(error) => Err(error),
        Ok(id) => match text_column_of(row, "name"@) {
            Err(error) => Err(error),
            Ok(name) => match text_column_of(row, "email"@) {
                Err(error) => Err(error),
                Ok(email) => Ok(UserView { id: id as int, name, email }),
            },
        },
    }
}

/// Whether `decoded` is what `row` decodes to: the same user, or a reading of
/// the same error.
pub open spec fn decodes_to(row: sqlx::postgres::PgRow, decoded: Result<User, Failure>) -> bool {
    match row_user(row) {
        Ok(user) => decoded matches Ok(made) && made@ == user,
        Err(error) => decoded matches Err(failure) && reads_as(error, failure@),
    }
}

/// The user that a row holds in its columns `id`, `name` and `email`, or a
/// reading of the driver's error for the first of them that it does not
/// decode.
pub fn user_of_row(row: &sqlx::postgres::PgRow) -> (r: Result<User, Failure>)
    ensures
        decodes_to(*row, r),
{
    user_of_columns(
        int_read(int_column(row, "id")),
        text_read(text_column(row, "name")),
        text_read(text_column(row, "email")),
    )
}

/// The failure of the first row, in order, that was not decoded.
pub open spec fn first_failure(decoded: Seq<Result<User, Failure>>) -> Option<FailureView>
    decreases decoded.len(),
{
    if decoded.len() == 0 {
        None
    } else {
        match first_failure(decoded.drop_last()) {
            Some(failure) => Some(failure),
            None => match decoded.last() {
                Err(failure) => Some(failure@),
                Ok(_) => None,
            },
        }
    }
}

/// The answer that a list of decoded rows makes: the users in the order of
/// their rows where every row was decoded, and otherwise the failure of the
/// first row that was not.
pub open spec fn decoded_reply(decoded: Seq<Result<User, Failure>>) -> ReplyView {
    match first_failure(decoded) {
        Some(failure) => ReplyView::Failed(failure),
        None => ReplyView::Rows(Seq::new(decoded.len(), |i: int| decoded[i]->Ok_0@)),
    }
}

/// The answer that a list of decoded rows makes.
pub fn reply_of_decoded(decoded: &Vec<Result<User, Failure>>) -> (reply: Reply)
    ensures
        reply@ == decoded_reply(decoded@),
{
    let mut users: Vec<User> = Vec::new();
    let mut failed: Option<Failure> = None;
    let mut i: usize = 0;
    while i < decoded.len()
        invariant
            i <= decoded.len(),
            first_failure(decoded@.take(i as int)) == match failed {
                Some(failure) => Some(failure@),
                None => None,
            },
            failed is None ==> users.len() == i,
            failed is None ==> forall|j: int|
                0 <= j < i ==> (#[trigger] decoded[j]) is Ok && users[j]@ == decoded[j]->Ok_0@,
        decreases decoded.len() - i,
    {
        proof {
            assert(decoded@.take(i + 1).drop_last() == decoded@.take(i as int));
            assert(decoded@.take(i + 1).last() == decoded[i as int]);
        }
        if failed.is_none() {
            match &decoded[i] {
                Ok(user) => users.push(user.duplicate()),
                Err(failure) => {
                    failed = Some(failure.duplicate());
                },
            }
        }
        i = i + 1;
    }
    assert(decoded@.take(i as int) == decoded@);
    match failed {
        Some(failure) => Reply::Failed(failure),
        None => {
            assert(user_views(users@) =~= Seq::new(decoded@.len(), |i: int| decoded[i]->Ok_0@));
            Reply::Rows(users)
        },
    }
}

/// The driver's error for the first row, in order, that it does not decode.
pub open spec fn first_undecoded(rows: Seq<sqlx::postgres::PgRow>) -> Option<sqlx::Error>
    decreases rows.len(),
{
    if rows.len() == 0 {
        None
    } else {
        match first_undecoded(rows.drop_last()) {
            Some(error) => Some(error),
            None => match row_user(rows.last()) {
                Err(error) => Some(error),
                Ok(_) => None,
            },
        }
    }
}

/// Rows decoded one by one fail first where the driver fails first, and are
/// all users where the driver decodes every row.
proof fn lemma_decoded_rows(
    rows: Seq<sqlx::postgres::PgRow>,
    decoded: Seq<Result<User, Failure>>,
)
    requires
        rows.len() == decoded.len(),
        forall|j: int| 0 <= j < rows.len() ==> decodes_to(rows[j], #[trigger] decoded[j]),
    ensures
        match first_undecoded(rows) {
            Some(error) => first_failure(decoded) matches Some(failure) && reads_as(
                error,
                failure,
            ),
            None => first_failure(decoded) is None && forall|j: int|
                0 <= j < decoded.len() ==> (#[trigger] decoded[j]) is Ok,
        },
    decreases rows.len(),
{
    if rows.len() > 0 {
        let shorter = decoded.drop_last();
        assert forall|j: int| 0 <= j < rows.drop_last().len() implies decodes_to(
            rows.drop_last()[j],
            #[trigger] shorter[j],
        ) by {
            assert(shorter[j] == decoded[j]);
            assert(rows.drop_last()[j] == rows[j]);
        }
        lemma_decoded_rows(rows.drop_last(), shorter);
        assert(decodes_to(rows.last(), decoded[decoded.len() - 1]));
        if first_undecoded(rows) is None {
            assert forall|j: int| 0 <= j < decoded.len() implies (#[trigger] decoded[j]) is Ok by {
                if j < shorter.len() {
                    assert(shorter[j] == decoded[j]);
                }
            }
        }
    }
}

/// The answer that a fetched list of rows makes: the users that the rows
/// decode to, in the order of the rows, where the driver decodes every row,
/// and otherwise a reading of the driver's error for the first row that it
/// does not decode.
pub fn reply_of_rows(rows: &Vec<sqlx::postgres::PgRow>) -> (reply: Reply)
    ensures
        match first_undecoded(rows@) {
            Some(error) => reply matches Reply::Failed(failure) && reads_as(error, failure@),
            None => reply@ == ReplyView::Rows(
                Seq::new(rows.len() as nat, |i: int| row_user(rows[i])->Ok_0),
            ),
        },
{
    let mut decoded: Vec<Result<User, Failure>> = Vec::new();
    let mut i: usize = 0;
    while i < rows.len()
        invariant
            i <= rows.len(),
            decoded.len() == i,
            forall|j: int| 0 <= j < i ==> decodes_to(rows[j], #[trigger] decoded[j]),
        decreases rows.len() - i,
    {
        decoded.push(user_of_row(&rows[i]));
        i = i + 1;
    }
    let reply = reply_of_decoded(&decoded);
    proof {
        lemma_decoded_rows(rows@, decoded@);
        if first_undecoded(rows@) is None {
            assert(Seq::new(decoded@.len(), |i: int| decoded[i]->Ok_0@) =~= Seq::new(
                rows.len() as nat,
                |i: int| row_user(rows[i])->Ok_0,
            ));
        }
    }
    reply
}

/// The answer that the summary of an executed statement makes: the count of
/// changed rows that it holds.
pub fn reply_of_result(result: &sqlx::postgres::PgQueryResult) -> (reply: Reply)
    ensures
        reply@ == ReplyView::Affected(affected_rows(*result) as nat),
{
    Reply::Affected(rows_affected(result))
}

/// The answer that a failed statement makes: a reading of the driver's error.
pub fn reply_of_error(error: &sqlx::Error) -> (reply: Reply)
    ensures
        reply matches Reply::Failed(failure) && reads_as(*error, failure@),
{
    Reply::Failed(failure_of(error))
}

} // verus!

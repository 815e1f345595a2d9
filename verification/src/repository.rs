//! The result of each operation, read off the store's answer to its statement.

use vstd::prelude::*;
use crate::error::{ErrorKind, RepoError, RepoErrorView, plain_error, statement_error};
use crate::reply::{Reply, ReplyView};
use crate::statement::{Request, RequestView};
use crate::user::{User, UserView};

verus! {

/// Message of the error for an insert that came back without its row.
pub const NO_ROW_RETURNED: &'static str = "the store returned no row for the inserted user";

/// Message of the error for several rows where the identifier allows one.
pub const SEVERAL_ROWS: &'static str = "the store returned more than one row for one id";

/// Message of the error for a row count in answer to a statement that returns rows.
pub const COUNT_FOR_ROWS: &'static str = "the store answered with a row count where rows were expected";

/// Message of the error for rows in answer to a statement that returns a count.
pub const ROWS_FOR_COUNT: &'static str = "the store answered with rows where a row count was expected";

/// Message of the error for an outcome that belongs to another operation.
pub const FOREIGN_ANSWER: &'static str = "the outcome belongs to another operation";

/// A query error with the given message.
pub open spec fn defect(message: Seq<char>) -> RepoErrorView {
    plain_error(ErrorKind::QueryError, message)
}

/// The result of `create`: the one row that the insert returned. No row, more
/// than one row and a row count are query errors; a failed statement is the
/// error of its failure.
pub open spec fn create_result(reply: ReplyView) -> Result<UserView, RepoErrorView> {
    match reply {
        ReplyView::Rows(rows) => if rows.len() == 1 {
            Ok(rows[0])
        } else if rows.len() == 0 {
            Err(defect(NO_ROW_RETURNED@))
        } else {
            Err(defect(SEVERAL_ROWS@))
        },
        ReplyView::Affected(_) => Err(defect(COUNT_FOR_ROWS@)),
        ReplyView::Failed(f) => Err(statement_error(f)),
    }
}

/// The result of `read` and of `update`: absent for no row, the row for one
/// row. More than one row and a row count are query errors; a failed statement
/// is the error of its failure.
pub open spec fn find_result(reply: ReplyView) -> Result<Option<UserView>, RepoErrorView> {
    match reply {
        ReplyView::Rows(rows) => if rows.len() == 0 {
            Ok(None)
        } else if rows.len() == 1 {
            Ok(Some(rows[0]))
        } else {
            Err(defect(SEVERAL_ROWS@))
        },
        ReplyView::Affected(_) => Err(defect(COUNT_FOR_ROWS@)),
        ReplyView::Failed(f) => Err(statement_error(f)),
    }
}

/// The result of `delete`: whether any row was removed. Rows in place of a
/// count are a query error; a failed statement is the error of its failure.
pub open spec fn delete_result(reply: ReplyView) -> Result<bool, RepoErrorView> {
    match reply {
        ReplyView::Rows(_) => Err(defect(ROWS_FOR_COUNT@)),
        ReplyView::Affected(n) => Ok(n > 0),
        ReplyView::Failed(f) => Err(statement_error(f)),
    }
}

/// The value of the result of `create`.
pub open spec fn created_view(r: Result<User, RepoError>) -> Result<UserView, RepoErrorView> {
    match r {
        Ok(user) => Ok(user@),
        Err(e) => Err(e@),
    }
}

/// The value of the result of `read` and of `update`.
pub open spec fn found_view(r: Result<Option<User>, RepoError>) -> Result<
    Option<UserView>,
    RepoErrorView,
> {
    match r {
        Ok(Some(user)) => Ok(Some(user@)),
        Ok(None) => Ok(None),
        Err(e) => Err(e@),
    }
}

/// The value of the result of `delete`.
pub open spec fn deleted_view(r: Result<bool, RepoError>) -> Result<bool, RepoErrorView> {
    match r {
        Ok(removed) => Ok(removed),
        Err(e) => Err(e@),
    }
}

/// The result of `create`, given the answer to its statement.
pub fn create_outcome(reply: Reply) -> (r: Result<User, RepoError>)
    ensures
        created_view(r) == create_result(reply@),
{
    match reply {
        Reply::Rows(rows) => {
            let mut rows = rows;
            if rows.len() == 1 {
                match rows.pop() {
                    Some(user) => Ok(user),
                    None => Err(RepoError::new(ErrorKind::QueryError, NO_ROW_RETURNED)),
                }
            } else if rows.len() == 0 {
                Err(RepoError::new(ErrorKind::QueryError, NO_ROW_RETURNED))
            } else {
                Err(RepoError::new(ErrorKind::QueryError, SEVERAL_ROWS))
            }
        },
        Reply::Affected(_) => Err(RepoError::new(ErrorKind::QueryError, COUNT_FOR_ROWS)),
        Reply::Failed(failure) => Err(RepoError::from_failure(failure)),
    }
}

/// The result of `read`, given the answer to its statement.
pub fn read_outcome(reply: Reply) -> (r: Result<Option<User>, RepoError>)
    ensures
        found_view(r) == find_result(reply@),
{
    match reply {
        Reply::Rows(rows) => {
            let mut rows = rows;
            if rows.len() > 1 {
                Err(RepoError::new(ErrorKind::QueryError, SEVERAL_ROWS))
            } else {
                Ok(rows.pop())
            }
        },
        Reply::Affected(_) => Err(RepoError::new(ErrorKind::QueryError, COUNT_FOR_ROWS)),
        Reply::Failed(failure) => Err(RepoError::from_failure(failure)),
    }
}

/// The result of `update`, given the answer to its statement.
pub fn update_outcome(reply: Reply) -> (r: Result<Option<User>, RepoError>)
    ensures
        found_view(r) == find_result(reply@),
{
    read_outcome(reply)
}

/// The result of `delete`, given the answer to its statement.
pub fn delete_outcome(reply: Reply) -> (r: Result<bool, RepoError>)
    ensures
        deleted_view(r) == delete_result(reply@),
{
    match reply {
        Reply::Rows(_) => Err(RepoError::new(ErrorKind::QueryError, ROWS_FOR_COUNT)),
        Reply::Affected(n) => Ok(n > 0),
        Reply::Failed(failure) => Err(RepoError::from_failure(failure)),
    }
}

/// What a completed operation hands to its caller.
#[derive(Debug, Clone, PartialEq, Eq)]
pub enum Answer {
    Created(User),
    Found(Option<User>),
    Updated(Option<User>),
    Deleted(bool),
}

/// The value of an [`Answer`].
pub enum AnswerView {
    Created(UserView),
    Found(Option<UserView>),
    Updated(Option<UserView>),
    Deleted(bool),
}

impl View for Answer {
    type V = AnswerView;

    open spec fn view(&self) -> AnswerView {
        match self {
            Answer::Created(user) => AnswerView::Created(user@),
            Answer::Found(Some(user)) => AnswerView::Found(Some(user@)),
            Answer::Found(None) => AnswerView::Found(None),
            Answer::Updated(Some(user)) => AnswerView::Updated(Some(user@)),
            Answer::Updated(None) => AnswerView::Updated(None),
            Answer::Deleted(removed) => AnswerView::Deleted(*removed),
        }
    }
}

/// The value of an operation's outcome.
pub open spec fn outcome_view(r: Result<Answer, RepoError>) -> Result<AnswerView, RepoErrorView> {
    match r {
        Ok(answer) => Ok(answer@),
        Err(e) => Err(e@),
    }
}

/// The outcome of a request, given the answer to its statement: the result of
/// the request's operation under that operation's name.
pub open spec fn outcome_of(request: RequestView, reply: ReplyView) -> Result<
    AnswerView,
    RepoErrorView,
> {
    match request {
        RequestView::Create { .. } => match create_result(reply) {
            Ok(user) => Ok(AnswerView::Created(user)),
            Err(e) => Err(e),
        },
        RequestView::Read { .. } => match find_result(reply) {
            Ok(found) => Ok(AnswerView::Found(found)),
            Err(e) => Err(e),
        },
        RequestView::Update { .. } => match find_result(reply) {
            Ok(found) => Ok(AnswerView::Updated(found)),
            Err(e) => Err(e),
        },
        RequestView::Delete { .. } => match delete_result(reply) {
            Ok(removed) => Ok(AnswerView::Deleted(removed)),
            Err(e) => Err(e),
        },
    }
}

/// The outcome of `request`, given the answer to its statement.
pub fn interpret(request: &Request, reply: Reply) -> (r: Result<Answer, RepoError>)
    ensures
        outcome_view(r) == outcome_of(request@, reply@),
{
    match request {
        Request::Create { .. } => match create_outcome(reply) {
            Ok(user) => Ok(Answer::Created(user)),
            Err(e) => Err(e),
        },
        Request::Read { .. } => match read_outcome(reply) {
            Ok(found) => Ok(Answer::Found(found)),
            Err(e) => Err(e),
        },
        Request::Update { .. } => match update_outcome(reply) {
            Ok(found) => Ok(Answer::Updated(found)),
            Err(e) => Err(e),
        },
        Request::Delete { .. } => match delete_outcome(reply) {
            Ok(removed) => Ok(Answer::Deleted(removed)),
            Err(e) => Err(e),
        },
    }
}

/// The result of `create` in an outcome: the user of a `Created`, the error of
/// a failure, and a query error for the answer of another operation.
pub open spec fn created_of(outcome: Result<AnswerView, RepoErrorView>) -> Result<
    UserView,
    RepoErrorView,
> {
    match outcome {
        Ok(AnswerView::Created(user)) => Ok(user),
        Ok(_) => Err(defect(FOREIGN_ANSWER@)),
        Err(e) => Err(e),
    }
}

/// The result of `read` in an outcome: what a `Found` holds, the error of a
/// failure, and a query error for the answer of another operation.
pub open spec fn found_of(outcome: Result<AnswerView, RepoErrorView>) -> Result<
    Option<UserView>,
    RepoErrorView,
> {
    match outcome {
        Ok(AnswerView::Found(found)) => Ok(found),
        Ok(_) => Err(defect(FOREIGN_ANSWER@)),
        Err(e) => Err(e),
    }
}

/// The result of `update` in an outcome: what an `Updated` holds, the error of
/// a failure, and a query error for the answer of another operation.
pub open spec fn updated_of(outcome: Result<AnswerView, RepoErrorView>) -> Result<
    Option<UserView>,
    RepoErrorView,
> {
    match outcome {
        Ok(AnswerView::Updated(found)) => Ok(found),
        Ok(_) => Err(defect(FOREIGN_ANSWER@)),
        Err(e) => Err(e),
    }
}

/// The result of `delete` in an outcome: what a `Deleted` holds, the error of
/// a failure, and a query error for the answer of another operation.
pub open spec fn deleted_of(outcome: Result<AnswerView, RepoErrorView>) -> Result<
    bool,
    RepoErrorView,
> {
    match outcome {
        Ok(AnswerView::Deleted(removed)) => Ok(removed),
        Ok(_) => Err(defect(FOREIGN_ANSWER@)),
        Err(e) => Err(e),
    }
}

/// The result of `create` in the outcome of an operation.
pub fn created(outcome: Result<Answer, RepoError>) -> (r: Result<User, RepoError>)
    ensures
        created_view(r) == created_of(outcome_view(outcome)),
{
    match outcome {
        Ok(Answer::Created(user)) => Ok(user),
        Ok(_) => Err(RepoError::new(ErrorKind::QueryError, FOREIGN_ANSWER)),
        Err(e) => Err(e),
    }
}

/// The result of `read` in the outcome of an operation.
pub fn found(outcome: Result<Answer, RepoError>) -> (r: Result<Option<User>, RepoError>)
    ensures
        found_view(r) == found_of(outcome_view(outcome)),
{
    match outcome {
        Ok(Answer::Found(found)) => Ok(found),
        Ok(_) => Err(RepoError::new(ErrorKind::QueryError, FOREIGN_ANSWER)),
        Err(e) => Err(e),
    }
}

/// The result of `update` in the outcome of an operation.
pub fn updated(outcome: Result<Answer, RepoError>) -> (r: Result<Option<User>, RepoError>)
    ensures
        found_view(r) == updated_of(outcome_view(outcome)),
{
    match outcome {
        Ok(Answer::Updated(found)) => Ok(found),
        Ok(_) => Err(RepoError::new(ErrorKind::QueryError, FOREIGN_ANSWER)),
        Err(e) => Err(e),
    }
}

/// The result of `delete` in the outcome of an operation.
pub fn deleted(outcome: Result<Answer, RepoError>) -> (r: Result<bool, RepoError>)
    ensures
        deleted_view(r) == deleted_of(outcome_view(outcome)),
{
    match outcome {
        Ok(Answer::Deleted(removed)) => Ok(removed),
        Ok(_) => Err(RepoError::new(ErrorKind::QueryError, FOREIGN_ANSWER)),
        Err(e) => Err(e),
    }
}

/// Read back under its own operation, the outcome of a request is the result
/// of that operation on the store's answer; the wrong-operation error never
/// arises that way.
pub proof fn lemma_outcome_matches_request(request: RequestView, reply: ReplyView)
    ensures
        request is Create ==> created_of(outcome_of(request, reply)) == create_result(reply),
        request is Read ==> found_of(outcome_of(request, reply)) == find_result(reply),
        request is Update ==> updated_of(outcome_of(request, reply)) == find_result(reply),
        request is Delete ==> deleted_of(outcome_of(request, reply)) == delete_result(reply),
{
}

} // verus!

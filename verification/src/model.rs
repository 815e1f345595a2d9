//! The `users` table as this layer takes the store to keep it, and what then
//! holds of operations that follow one another.
//!
//! The store is not part of this crate. What is written down here is the
//! behaviour that the four statements rely on: rows are kept by identifier, an
//! insert adds one row under an identifier not in use, an update replaces both
//! texts of the row it names, a delete removes that row, and a statement that
//! fails changes nothing.

use vstd::prelude::*;
use crate::error::{ErrorKind, Fault, FailureView, RepoErrorView};
use crate::reply::ReplyView;
use crate::repository::{create_result, delete_result, find_result};
use crate::statement::RequestView;
use crate::user::UserView;

verus! {

/// The rows that a select for `id` returns: the row kept under `id`, if any.
pub open spec fn rows_with(table: Map<int, UserView>, id: int) -> Seq<UserView> {
    if table.dom().contains(id) {
        seq![table[id]]
    } else {
        Seq::empty()
    }
}

/// Whether a store that keeps `before` may answer `request` with `reply` and
/// keep `after`.
///
/// A failure leaves the table as it was. An insert returns the one row it
/// added, under an identifier that was free; the texts of that row are the
/// store's to normalize. A select returns the row kept under the identifier
/// and changes nothing. An update puts exactly the given texts under the
/// identifier if a row is kept there, and returns what is then kept there. A
/// delete removes the row kept under the identifier and counts it.
pub open spec fn honours(
    before: Map<int, UserView>,
    request: RequestView,
    reply: ReplyView,
    after: Map<int, UserView>,
) -> bool {
    match reply {
        ReplyView::Failed(_) => after == before,
        ReplyView::Rows(rows) => match request {
            RequestView::Create { .. } => {
                &&& rows.len() == 1
                &&& !before.dom().contains(rows[0].id)
                &&& after == before.insert(rows[0].id, rows[0])
            },
            RequestView::Read { id } => after == before && rows == rows_with(before, id),
            RequestView::Update { id, name, email } => {
                &&& after == if before.dom().contains(id) {
                    before.insert(id, UserView { id, name, email })
                } else {
                    before
                }
                &&& rows == rows_with(after, id)
            },
            RequestView::Delete { .. } => false,
        },
        ReplyView::Affected(n) => match request {
            RequestView::Delete { id } => {
                &&& after == before.remove(id)
                &&& n == if before.dom().contains(id) { 1nat } else { 0nat }
            },
            _ => false,
        },
    }
}

/// Reading the identifier of a user just created returns that user, as the
/// create returned it.
pub proof fn lemma_read_after_create(
    before: Map<int, UserView>,
    name: Seq<char>,
    email: Seq<char>,
    created: ReplyView,
    between: Map<int, UserView>,
    read: ReplyView,
    after: Map<int, UserView>,
)
    requires
        honours(before, RequestView::Create { name, email }, created, between),
        create_result(created) is Ok,
        honours(between, RequestView::Read { id: create_result(created)->Ok_0.id }, read, after),
        read !is Failed,
    ensures
        find_result(read) == Ok::<Option<UserView>, RepoErrorView>(
            Some(create_result(created)->Ok_0),
        ),
{
}

/// Reading an identifier under which no row is kept, because none was created
/// there or because it was deleted, is absent and not an error, and leaves the
/// table as it was.
pub proof fn lemma_read_of_absent(
    table: Map<int, UserView>,
    id: int,
    read: ReplyView,
    after: Map<int, UserView>,
)
    requires
        !table.dom().contains(id),
        honours(table, RequestView::Read { id }, read, after),
        read !is Failed,
    ensures
        find_result(read) == Ok::<Option<UserView>, RepoErrorView>(None),
        after == table,
{
}

/// After an update that found its row, that update and a read of the same
/// identifier both return the identifier with exactly the new name and the new
/// email: nothing of the earlier row is left.
pub proof fn lemma_read_after_update(
    before: Map<int, UserView>,
    id: int,
    name: Seq<char>,
    email: Seq<char>,
    updated: ReplyView,
    between: Map<int, UserView>,
    read: ReplyView,
    after: Map<int, UserView>,
)
    requires
        honours(before, RequestView::Update { id, name, email }, updated, between),
        find_result(updated) matches Ok(Some(_)),
        honours(between, RequestView::Read { id }, read, after),
        read !is Failed,
    ensures
        find_result(updated) == Ok::<Option<UserView>, RepoErrorView>(
            Some(UserView { id, name, email }),
        ),
        find_result(read) == find_result(updated),
{
}

/// An update of an identifier under which no row is kept is absent, not an
/// error, and changes nothing.
pub proof fn lemma_update_of_absent(
    before: Map<int, UserView>,
    id: int,
    name: Seq<char>,
    email: Seq<char>,
    updated: ReplyView,
    after: Map<int, UserView>,
)
    requires
        !before.dom().contains(id),
        honours(before, RequestView::Update { id, name, email }, updated, after),
        updated !is Failed,
    ensures
        find_result(updated) == Ok::<Option<UserView>, RepoErrorView>(None),
        after == before,
{
}

/// After a delete that returned true, a read of the same identifier is absent
/// and a second delete of it returns false.
pub proof fn lemma_delete_then_absent(
    before: Map<int, UserView>,
    id: int,
    deleted: ReplyView,
    between: Map<int, UserView>,
    read: ReplyView,
    after_read: Map<int, UserView>,
    again: ReplyView,
    after_again: Map<int, UserView>,
)
    requires
        honours(before, RequestView::Delete { id }, deleted, between),
        delete_result(deleted) == Ok::<bool, RepoErrorView>(true),
        honours(between, RequestView::Read { id }, read, after_read),
        read !is Failed,
        honours(between, RequestView::Delete { id }, again, after_again),
        again !is Failed,
    ensures
        find_result(read) == Ok::<Option<UserView>, RepoErrorView>(None),
        delete_result(again) == Ok::<bool, RepoErrorView>(false),
{
}

/// A create that the store refuses because it breaks an integrity rule, such
/// as a unique email, fails as a constraint violation that carries the store's
/// message and the constraint's name, and no row is added.
pub proof fn lemma_constraint_enforced(
    before: Map<int, UserView>,
    name: Seq<char>,
    email: Seq<char>,
    failure: FailureView,
    after: Map<int, UserView>,
)
    requires
        failure.fault == Fault::Database,
        failure.violation is Some,
        honours(before, RequestView::Create { name, email }, ReplyView::Failed(failure), after),
    ensures
        create_result(ReplyView::Failed(failure)) == Err::<UserView, RepoErrorView>(
            RepoErrorView {
                kind: ErrorKind::ConstraintViolation,
                message: failure.message,
                constraint: failure.constraint,
            },
        ),
        after == before,
{
}

} // verus!

//! What comes back for one statement, as plain values.

use vstd::prelude::*;
use crate::error::{Failure, FailureView};
use crate::user::{User, UserView, user_views};

verus! {

/// The answer to one statement.
#[derive(Debug, Clone, PartialEq, Eq)]
pub enum Reply {
    /// The rows that the statement returned, in the order they came.
    Rows(Vec<User>),
    /// The number of rows that the statement changed.
    Affected(u64),
    /// The statement failed; nothing was changed.
    Failed(Failure),
}

/// The value of a [`Reply`].
pub enum ReplyView {
    Rows(Seq<UserView>),
    Affected(nat),
    Failed(FailureView),
}

impl View for Reply {
    type V = ReplyView;

    open spec fn view(&self) -> ReplyView {
        match self {
            Reply::Rows(rows) => ReplyView::Rows(user_views(rows@)),
            Reply::Affected(n) => ReplyView::Affected(*n as nat),
            Reply::Failed(f) => ReplyView::Failed(f@),
        }
    }
}

} // verus!

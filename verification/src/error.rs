//! Failures: what the driver reports, and the five kinds this layer answers with.

use vstd::prelude::*;

verus! {

/// Where a failure arose, as the database driver tells it.
#[derive(Debug, Clone, Copy, PartialEq, Eq, Structural)]
pub enum Fault {
    /// No connection became free within the pool's own time limit.
    PoolTimedOut,
    /// The pool was closed while a connection was being waited for.
    PoolClosed,
    /// A background worker of the driver is gone.
    WorkerCrashed,
    /// Reading from or writing to the socket failed.
    Io,
    /// The encrypted channel could not be set up.
    Tls,
    /// The store itself answered with an error.
    Database,
    /// Anything else: a row that does not decode, a broken protocol exchange,
    /// an invalid argument.
    Other,
}

/// The integrity rule that the store found broken.
#[derive(Debug, Clone, Copy, PartialEq, Eq, Structural)]
pub enum Violation {
    Unique,
    ForeignKey,
    NotNull,
    Check,
}

/// A failure as plain values: where it arose, the broken rule if the store
/// named one, the constraint's name if it gave one, and the driver's message.
#[derive(Debug, Clone, PartialEq, Eq)]
pub struct Failure {
    pub fault: Fault,
    pub violation: Option<Violation>,
    pub constraint: Option<String>,
    pub message: String,
}

/// The value of a [`Failure`].
pub struct FailureView {
    pub fault: Fault,
    pub violation: Option<Violation>,
    pub constraint: Option<Seq<char>>,
    pub message: Seq<char>,
}

/// The characters of an optional text.
pub open spec fn text_of(text: Option<String>) -> Option<Seq<char>> {
    match text {
        Some(s) => Some(s@),
        None => None,
    }
}

impl View for Failure {
    type V = FailureView;

    open spec fn view(&self) -> FailureView {
        FailureView {
            fault: self.fault,
            violation: self.violation,
            constraint: text_of(self.constraint),
            message: self.message@,
        }
    }
}

impl FailureView {
    /// A broken rule and a constraint's name belong to an error of the store
    /// alone.
    pub open spec fn well_formed(self) -> bool {
        self.fault != Fault::Database ==> self.violation is None && self.constraint is None
    }
}

/// The failure made of the four values that a driver's error gives: the rule
/// and the constraint's name are kept for an error of the store and dropped
/// for every other fault.
pub open spec fn failure_from(
    fault: Fault,
    violation: Option<Violation>,
    constraint: Option<Seq<char>>,
    message: Seq<char>,
) -> FailureView {
    if fault == Fault::Database {
        FailureView { fault, violation, constraint, message }
    } else {
        FailureView { fault, violation: None, constraint: None, message }
    }
}

impl Failure {
    /// The failure made of the four values that a driver's error gives.
    pub fn new(
        fault: Fault,
        violation: Option<Violation>,
        constraint: Option<String>,
        message: String,
    ) -> (failure: Failure)
        ensures
            failure@ == failure_from(fault, violation, text_of(constraint), message@),
            failure@.well_formed(),
    {
        match fault {
            Fault::Database => Failure { fault, violation, constraint, message },
            _ => Failure { fault, violation: None, constraint: None, message },
        }
    }

    /// A second value with the same four fields.
    pub fn duplicate(&self) -> (failure: Failure)
        ensures
            failure@ == self@,
    {
        let constraint = match &self.constraint {
            Some(name) => Some(name.clone()),
            None => None,
        };
        Failure {
            fault: self.fault,
            violation: self.violation,
            constraint,
            message: self.message.clone(),
        }
    }
}

/// The five kinds of failure that an operation can end with.
#[derive(Debug, Clone, Copy, PartialEq, Eq, Structural)]
pub enum ErrorKind {
    /// No connection became available in time. Worth a later retry.
    PoolExhausted,
    /// The pool or the transport to the store failed. Worth a retry.
    ConnectionError,
    /// The store refused a write because it breaks an integrity rule.
    ConstraintViolation,
    /// Any other failure that the store or the driver reports: a defect.
    QueryError,
    /// The caller gave the operation up before it completed.
    Cancelled,
}

/// A failed operation: its kind, the underlying message, and for a broken
/// integrity rule the name of the constraint where the store gave it.
#[derive(Debug, Clone, PartialEq, Eq)]
pub struct RepoError {
    pub kind: ErrorKind,
    pub message: String,
    pub constraint: Option<String>,
}

/// The value of a [`RepoError`].
pub struct RepoErrorView {
    pub kind: ErrorKind,
    pub message: Seq<char>,
    pub constraint: Option<Seq<char>>,
}

impl View for RepoError {
    type V = RepoErrorView;

    open spec fn view(&self) -> RepoErrorView {
        RepoErrorView {
            kind: self.kind,
            message: self.message@,
            constraint: text_of(self.constraint),
        }
    }
}

/// An error of the given kind and message that names no constraint.
pub open spec fn plain_error(kind: ErrorKind, message: Seq<char>) -> RepoErrorView {
    RepoErrorView { kind, message, constraint: None }
}

/// The kind of a failure that came up while a statement ran: a pool that timed
/// out is exhausted, a lost pool, worker or transport is a connection error, an
/// error from the store is a constraint violation exactly if it names a broken
/// rule, and all the rest is a query error.
pub open spec fn statement_kind(f: FailureView) -> ErrorKind {
    match f.fault {
        Fault::PoolTimedOut => ErrorKind::PoolExhausted,
        Fault::PoolClosed | Fault::WorkerCrashed | Fault::Io | Fault::Tls => ErrorKind::ConnectionError,
        Fault::Database => if f.violation is Some {
            ErrorKind::ConstraintViolation
        } else {
            ErrorKind::QueryError
        },
        Fault::Other => ErrorKind::QueryError,
    }
}

/// The kind of a failure that came up while a connection was waited for: the
/// pool's own timeout is exhaustion, everything else a connection error.
pub open spec fn acquire_kind(f: FailureView) -> ErrorKind {
    if f.fault == Fault::PoolTimedOut {
        ErrorKind::PoolExhausted
    } else {
        ErrorKind::ConnectionError
    }
}

/// The error that a failed statement ends with: the kind by [`statement_kind`],
/// the driver's message unchanged, and the constraint's name kept for a
/// constraint violation only.
pub open spec fn statement_error(f: FailureView) -> RepoErrorView {
    RepoErrorView {
        kind: statement_kind(f),
        message: f.message,
        constraint: if statement_kind(f) == ErrorKind::ConstraintViolation {
            f.constraint
        } else {
            None
        },
    }
}

/// The error that a failed acquisition ends with.
pub open spec fn acquire_error(f: FailureView) -> RepoErrorView {
    plain_error(acquire_kind(f), f.message)
}

/// The name under which a kind is reported.
pub open spec fn kind_name(kind: ErrorKind) -> Seq<char> {
    match kind {
        ErrorKind::PoolExhausted => "PoolExhausted"@,
        ErrorKind::ConnectionError => "ConnectionError"@,
        ErrorKind::ConstraintViolation => "ConstraintViolation"@,
        ErrorKind::QueryError => "QueryError"@,
        ErrorKind::Cancelled => "Cancelled"@,
    }
}

impl ErrorKind {
    /// The name under which this kind is reported.
    pub fn name(&self) -> (name: &'static str)
        ensures
            name@ == kind_name(*self),
    {
        match self {
            ErrorKind::PoolExhausted => "PoolExhausted",
            ErrorKind::ConnectionError => "ConnectionError",
            ErrorKind::ConstraintViolation => "ConstraintViolation",
            ErrorKind::QueryError => "QueryError",
            ErrorKind::Cancelled => "Cancelled",
        }
    }

    /// Whether trying the same operation again, unchanged, can succeed: true
    /// for an exhausted pool and for a connection error only.
    pub fn is_retryable(&self) -> (yes: bool)
        ensures
            yes == (*self == ErrorKind::PoolExhausted || *self == ErrorKind::ConnectionError),
    {
        match self {
            ErrorKind::PoolExhausted | ErrorKind::ConnectionError => true,
            _ => false,
        }
    }
}

impl RepoError {
    /// An error of the given kind with the given message and no constraint.
    pub fn new(kind: ErrorKind, message: &str) -> (e: RepoError)
        ensures
            e@ == plain_error(kind, message@),
    {
        RepoError { kind, message: message.to_owned(), constraint: None }
    }

    /// The error for a statement that failed with `failure`.
    pub fn from_failure(failure: Failure) -> (e: RepoError)
        ensures
            e@ == statement_error(failure@),
    {
        let kind = match failure.fault {
            Fault::PoolTimedOut => ErrorKind::PoolExhausted,
            Fault::PoolClosed | Fault::WorkerCrashed | Fault::Io | Fault::Tls => ErrorKind::ConnectionError,
            Fault::Database => match failure.violation {
                Some(_) => ErrorKind::ConstraintViolation,
                None => ErrorKind::QueryError,
            },
            Fault::Other => ErrorKind::QueryError,
        };
        let constraint = match kind {
            ErrorKind::ConstraintViolation => failure.constraint,
            _ => None,
        };
        RepoError { kind, message: failure.message, constraint }
    }

    /// The error for an acquisition that failed with `failure`.
    pub fn from_acquire_failure(failure: Failure) -> (e: RepoError)
        ensures
            e@ == acquire_error(failure@),
    {
        let kind = match failure.fault {
            Fault::PoolTimedOut => ErrorKind::PoolExhausted,
            _ => ErrorKind::ConnectionError,
        };
        RepoError { kind, message: failure.message, constraint: None }
    }

    /// The error as one line: the kind's name, a colon and a space, the message.
    pub fn describe(&self) -> (line: String)
        ensures
            line@ == kind_name(self.kind) + ": "@ + self.message@,
    {
        let mut line = self.kind.name().to_owned();
        line.append(": ");
        line.append(self.message.as_str());
        line
    }
}

} // verus!

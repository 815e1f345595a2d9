//! The course of one operation: a connection is acquired, one statement is
//! executed on it, and the connection is handed back before the result is
//! delivered, on every path.
//!
//! The crate waits for nothing itself. [`Operation::step`] takes what has just
//! happened and answers with what to do next; the caller does it, waits, and
//! reports back.

use vstd::prelude::*;
use crate::error::{ErrorKind, Failure, FailureView, RepoError, RepoErrorView, acquire_error, plain_error};
use crate::reply::{Reply, ReplyView};
use crate::repository::{Answer, AnswerView, interpret, outcome_of, outcome_view};
use crate::statement::{Request, RequestView, Statement, StatementView, statement_of};

verus! {

/// Message of the error for a connection that did not come in time.
pub const ACQUIRE_EXPIRED: &'static str = "no connection became available in time";

/// Message of the error for a statement that did not complete in time.
pub const STATEMENT_EXPIRED: &'static str = "the statement did not complete in time";

/// Message of the error for an operation that its caller gave up.
pub const CANCELLED: &'static str = "the operation was cancelled";

/// How far an operation has come.
#[derive(Debug, Clone, Copy, PartialEq, Eq, Structural)]
pub enum Phase {
    /// Nothing has been asked of the pool yet.
    Ready,
    /// The pool has been asked for a connection.
    Acquiring,
    /// A connection is held and the statement is with the store.
    Executing,
    /// The result has been delivered and no connection is held.
    Done,
}

/// What has just happened.
#[derive(Debug, Clone, PartialEq, Eq)]
pub enum Event {
    /// The caller wants the operation carried out.
    Start,
    /// The pool handed out a connection.
    Acquired,
    /// The pool could not hand out a connection.
    AcquireFailed(Failure),
    /// The store answered the statement.
    Replied(Reply),
    /// The time allowed for the pending wait ran out.
    Expired,
    /// The caller gave the operation up.
    Cancelled,
}

/// The value of an [`Event`].
pub enum EventView {
    Start,
    Acquired,
    AcquireFailed(FailureView),
    Replied(ReplyView),
    Expired,
    Cancelled,
}

impl View for Event {
    type V = EventView;

    open spec fn view(&self) -> EventView {
        match self {
            Event::Start => EventView::Start,
            Event::Acquired => EventView::Acquired,
            Event::AcquireFailed(f) => EventView::AcquireFailed(f@),
            Event::Replied(reply) => EventView::Replied(reply@),
            Event::Expired => EventView::Expired,
            Event::Cancelled => EventView::Cancelled,
        }
    }
}

/// What to do next.
#[derive(Debug, PartialEq, Eq)]
pub enum Action {
    /// Ask the pool for a connection and wait for it.
    Acquire,
    /// Execute this statement on the connection held and wait for the answer.
    Execute(Statement),
    /// Stop waiting; if `release` is set, hand back the connection, or whatever
    /// part of one has been acquired; then deliver `outcome`.
    Finish { release: bool, outcome: Result<Answer, RepoError> },
    /// The event changes nothing: go on as before.
    Continue,
}

/// The value of an [`Action`].
pub enum ActionView {
    Acquire,
    Execute(StatementView),
    Finish { release: bool, outcome: Result<AnswerView, RepoErrorView> },
    Continue,
}

impl View for Action {
    type V = ActionView;

    open spec fn view(&self) -> ActionView {
        match self {
            Action::Acquire => ActionView::Acquire,
            Action::Execute(statement) => ActionView::Execute(statement@),
            Action::Finish { release, outcome } => ActionView::Finish {
                release: *release,
                outcome: outcome_view(*outcome),
            },
            Action::Continue => ActionView::Continue,
        }
    }
}

/// One operation under way: what was asked for and how far it has come.
#[derive(Debug, Clone, PartialEq, Eq)]
pub struct Operation {
    pub request: Request,
    pub phase: Phase,
}

/// The value of an [`Operation`].
pub struct OperationView {
    pub request: RequestView,
    pub phase: Phase,
}

impl View for Operation {
    type V = OperationView;

    open spec fn view(&self) -> OperationView {
        OperationView { request: self.request@, phase: self.phase }
    }
}

impl OperationView {
    /// The same operation in another phase.
    pub open spec fn at(self, phase: Phase) -> OperationView {
        OperationView { request: self.request, phase }
    }
}

/// The error of an operation that its caller gave up.
pub open spec fn cancelled_error() -> RepoErrorView {
    plain_error(ErrorKind::Cancelled, CANCELLED@)
}

/// The last step of an operation that fails with `error`.
pub open spec fn fail(op: OperationView, release: bool, error: RepoErrorView) -> (
    OperationView,
    ActionView,
) {
    (op.at(Phase::Done), ActionView::Finish { release, outcome: Err(error) })
}

/// The next phase and the next action, for each phase and event.
///
/// Before anything is acquired, a start asks for a connection and a
/// cancellation ends the operation with nothing to release. While the
/// connection is waited for, its arrival sends the request's statement; a
/// refusal by the pool ends the operation with the error of the refusal and
/// nothing to release; a timeout ends it as an exhausted pool and a
/// cancellation as cancelled, both releasing what may have been acquired
/// meanwhile. While the statement runs, the store's answer ends the operation
/// with the outcome read off it, a timeout with a connection error and a
/// cancellation as cancelled, all three releasing the connection. Every other
/// event changes nothing.
pub open spec fn step_spec(op: OperationView, event: EventView) -> (OperationView, ActionView) {
    match (op.phase, event) {
        (Phase::Ready, EventView::Start) => (op.at(Phase::Acquiring), ActionView::Acquire),
        (Phase::Ready, EventView::Cancelled) => fail(op, false, cancelled_error()),
        (Phase::Acquiring, EventView::Acquired) => (
            op.at(Phase::Executing),
            ActionView::Execute(statement_of(op.request)),
        ),
        (Phase::Acquiring, EventView::AcquireFailed(f)) => fail(op, false, acquire_error(f)),
        (Phase::Acquiring, EventView::Expired) => fail(
            op,
            true,
            plain_error(ErrorKind::PoolExhausted, ACQUIRE_EXPIRED@),
        ),
        (Phase::Acquiring, EventView::Cancelled) => fail(op, true, cancelled_error()),
        (Phase::Executing, EventView::Replied(reply)) => (
            op.at(Phase::Done),
            ActionView::Finish { release: true, outcome: outcome_of(op.request, reply) },
        ),
        (Phase::Executing, EventView::Expired) => fail(
            op,
            true,
            plain_error(ErrorKind::ConnectionError, STATEMENT_EXPIRED@),
        ),
        (Phase::Executing, EventView::Cancelled) => fail(op, true, cancelled_error()),
        _ => (op, ActionView::Continue),
    }
}

impl Operation {
    /// An operation for `request`, with nothing done yet.
    pub fn new(request: Request) -> (op: Operation)
        ensures
            op@ == (OperationView { request: request@, phase: Phase::Ready }),
    {
        Operation { request, phase: Phase::Ready }
    }

    /// Whether the result has been delivered.
    pub fn is_done(&self) -> (done: bool)
        ensures
            done == (self.phase == Phase::Done),
    {
        self.phase == Phase::Done
    }

    /// Takes in what has just happened and says what to do next.
    pub fn step(self, event: Event) -> (next: (Operation, Action))
        ensures
            (next.0@, next.1@) == step_spec(self@, event@),
    {
        let Operation { request, phase } = self;
        match phase {
            Phase::Ready => match event {
                Event::Start => (Operation { request, phase: Phase::Acquiring }, Action::Acquire),
                Event::Cancelled => finish_with(
                    request,
                    false,
                    RepoError::new(ErrorKind::Cancelled, CANCELLED),
                ),
                _ => (Operation { request, phase }, Action::Continue),
            },
            Phase::Acquiring => match event {
                Event::Acquired => {
                    let statement = request.statement();
                    (Operation { request, phase: Phase::Executing }, Action::Execute(statement))
                },
                Event::AcquireFailed(failure) => finish_with(
                    request,
                    false,
                    RepoError::from_acquire_failure(failure),
                ),
                Event::Expired => finish_with(
                    request,
                    true,
                    RepoError::new(ErrorKind::PoolExhausted, ACQUIRE_EXPIRED),
                ),
                Event::Cancelled => finish_with(
                    request,
                    true,
                    RepoError::new(ErrorKind::Cancelled, CANCELLED),
                ),
                _ => (Operation { request, phase }, Action::Continue),
            },
            Phase::Executing => match event {
                Event::Replied(reply) => {
                    let outcome = interpret(&request, reply);
                    (
                        Operation { request, phase: Phase::Done },
                        Action::Finish { release: true, outcome },
                    )
                },
                Event::Expired => finish_with(
                    request,
                    true,
                    RepoError::new(ErrorKind::ConnectionError, STATEMENT_EXPIRED),
                ),
                Event::Cancelled => finish_with(
                    request,
                    true,
                    RepoError::new(ErrorKind::Cancelled, CANCELLED),
                ),
                _ => (Operation { request, phase }, Action::Continue),
            },
            Phase::Done => (Operation { request, phase }, Action::Continue),
        }
    }
}

/// The last step of an operation for `request` that fails with `error`.
fn finish_with(request: Request, release: bool, error: RepoError) -> (next: (Operation, Action))
    ensures
        (next.0@, next.1@) == fail(
            OperationView { request: request@, phase: Phase::Done },
            release,
            error@,
        ),
{
    (Operation { request, phase: Phase::Done }, Action::Finish { release, outcome: Err(error) })
}

/// Where an operation stands, and all that it has asked for, after a sequence
/// of events.
pub open spec fn run(op: OperationView, events: Seq<EventView>) -> (OperationView, Seq<ActionView>)
    decreases events.len(),
{
    if events.len() == 0 {
        (op, Seq::empty())
    } else {
        let (before, actions) = run(op, events.drop_last());
        let (after, action) = step_spec(before, events.last());
        (after, actions.push(action))
    }
}

/// How many of the actions satisfy `wanted`.
pub open spec fn count(actions: Seq<ActionView>, wanted: spec_fn(ActionView) -> bool) -> nat
    decreases actions.len(),
{
    if actions.len() == 0 {
        0
    } else {
        count(actions.drop_last(), wanted) + if wanted(actions.last()) {
            1nat
        } else {
            0nat
        }
    }
}

/// How often a connection was asked for.
pub open spec fn acquires(actions: Seq<ActionView>) -> nat {
    count(actions, |a: ActionView| a is Acquire)
}

/// How often a statement was sent.
pub open spec fn executes(actions: Seq<ActionView>) -> nat {
    count(actions, |a: ActionView| a is Execute)
}

/// How often a result was delivered.
pub open spec fn finishes(actions: Seq<ActionView>) -> nat {
    count(actions, |a: ActionView| a is Finish)
}

/// How often a result was delivered after handing the connection back.
pub open spec fn releases(actions: Seq<ActionView>) -> nat {
    count(actions, |a: ActionView| a matches ActionView::Finish { release, .. } && release)
}

/// How often a statement other than `statement` was sent.
pub open spec fn strays(actions: Seq<ActionView>, statement: StatementView) -> nat {
    count(actions, |a: ActionView| a matches ActionView::Execute(s) && s != statement)
}

/// What the actions so far must be for the phase reached.
pub open spec fn consistent(op: OperationView, actions: Seq<ActionView>) -> bool {
    &&& op.phase == Phase::Ready ==> acquires(actions) == 0
    &&& acquires(actions) <= 1
    &&& executes(actions) <= acquires(actions)
    &&& op.phase == Phase::Acquiring ==> acquires(actions) == 1 && executes(actions) == 0
    &&& op.phase == Phase::Executing ==> executes(actions) == 1
    &&& finishes(actions) == if op.phase == Phase::Done { 1nat } else { 0nat }
    &&& releases(actions) <= finishes(actions)
    &&& op.phase == Phase::Done && executes(actions) == 1 ==> releases(actions) == 1
    &&& strays(actions, statement_of(op.request)) == 0
}

/// One step keeps the request and keeps the actions consistent with the phase.
proof fn lemma_step_consistent(op: OperationView, actions: Seq<ActionView>, event: EventView)
    requires
        consistent(op, actions),
    ensures
        step_spec(op, event).0.request == op.request,
        consistent(step_spec(op, event).0, actions.push(step_spec(op, event).1)),
{
    let action = step_spec(op, event).1;
    let longer = actions.push(action);
    assert(longer.drop_last() == actions);
    assert(longer.last() == action);
}

/// Over any sequence of events, an operation that starts with nothing done
/// keeps its request and keeps its actions consistent with its phase.
proof fn lemma_run_consistent(op: OperationView, events: Seq<EventView>)
    requires
        op.phase == Phase::Ready,
    ensures
        run(op, events).0.request == op.request,
        consistent(run(op, events).0, run(op, events).1),
    decreases events.len(),
{
    if events.len() == 0 {
    } else {
        lemma_run_consistent(op, events.drop_last());
        let (before, actions) = run(op, events.drop_last());
        lemma_step_consistent(before, actions, events.last());
    }
}

/// Whatever happens and in whatever order, an operation asks for at most one
/// connection and sends at most one statement, which is the statement of its
/// request and is sent only after a connection was asked for.
pub proof fn lemma_one_statement(op: OperationView, events: Seq<EventView>)
    requires
        op.phase == Phase::Ready,
    ensures
        acquires(run(op, events).1) <= 1,
        executes(run(op, events).1) <= acquires(run(op, events).1),
        strays(run(op, events).1, statement_of(op.request)) == 0,
{
    lemma_run_consistent(op, events);
}

/// Whatever happens and in whatever order, an operation delivers its result
/// exactly once if it has reached its last phase and not at all before; and
/// once it has, a connection that a statement was sent on has been handed back.
pub proof fn lemma_connection_released(op: OperationView, events: Seq<EventView>)
    requires
        op.phase == Phase::Ready,
    ensures
        finishes(run(op, events).1) == if run(op, events).0.phase == Phase::Done {
            1nat
        } else {
            0nat
        },
        run(op, events).0.phase == Phase::Done && executes(run(op, events).1) == 1 ==> releases(
            run(op, events).1,
        ) == 1,
        run(op, events).0.phase == Phase::Executing ==> executes(run(op, events).1) == 1,
{
    lemma_run_consistent(op, events);
}

/// An operation that nothing disturbs asks for a connection, sends the
/// statement of its request, and on the store's answer hands the connection
/// back and delivers the outcome read off that answer.
pub proof fn lemma_undisturbed_course(op: OperationView, reply: ReplyView)
    requires
        op.phase == Phase::Ready,
    ensures
        run(op, seq![EventView::Start, EventView::Acquired, EventView::Replied(reply)]) == (
            op.at(Phase::Done),
            seq![
                ActionView::Acquire,
                ActionView::Execute(statement_of(op.request)),
                ActionView::Finish { release: true, outcome: outcome_of(op.request, reply) },
            ],
        ),
{
    let e3 = seq![EventView::Start, EventView::Acquired, EventView::Replied(reply)];
    let e2 = seq![EventView::Start, EventView::Acquired];
    let e1 = seq![EventView::Start];
    assert(e3.drop_last() == e2);
    assert(e2.drop_last() == e1);
    assert(e1.drop_last() == Seq::<EventView>::empty());
    assert(run(op, e1.drop_last()) == (op, Seq::<ActionView>::empty()));
    assert(run(op, e1).0 == op.at(Phase::Acquiring));
    assert(run(op, e1).1 == seq![ActionView::Acquire]);
    assert(run(op, e2).0 == op.at(Phase::Executing));
    assert(run(op, e2).1 == seq![
        ActionView::Acquire,
        ActionView::Execute(statement_of(op.request)),
    ]);
    assert(run(op, e3).1 == seq![
        ActionView::Acquire,
        ActionView::Execute(statement_of(op.request)),
        ActionView::Finish { release: true, outcome: outcome_of(op.request, reply) },
    ]);
}

} // verus!

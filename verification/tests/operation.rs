use user_crud::error::{ErrorKind, Failure, Fault, RepoError};
use user_crud::operation::{
    Action, Event, Operation, Phase, ACQUIRE_EXPIRED, CANCELLED, STATEMENT_EXPIRED,
};
use user_crud::reply::Reply;
use user_crud::repository::{Answer, ROWS_FOR_COUNT};
use user_crud::statement::{create_statement, delete_statement, Request};
use user_crud::user::User;

fn create_alice() -> Request {
    Request::Create { name: "Alice".to_string(), email: "alice@example.com".to_string() }
}

fn alice() -> User {
    User::new(1, "Alice".to_string(), "alice@example.com".to_string())
}

fn error(kind: ErrorKind, message: &str) -> RepoError {
    RepoError { kind, message: message.to_string(), constraint: None }
}

fn failure(fault: Fault, message: &str) -> Failure {
    Failure { fault, violation: None, constraint: None, message: message.to_string() }
}

fn acquiring(request: Request) -> Operation {
    let (op, action) = Operation::new(request).step(Event::Start);
    assert_eq!(action, Action::Acquire);
    op
}

fn executing(request: Request) -> Operation {
    let (op, action) = acquiring(request.clone()).step(Event::Acquired);
    assert_eq!(action, Action::Execute(request.statement()));
    op
}

fn all_events() -> Vec<Event> {
    vec![
        Event::Start,
        Event::Acquired,
        Event::AcquireFailed(failure(Fault::Io, "x")),
        Event::Replied(Reply::Affected(1)),
        Event::Expired,
        Event::Cancelled,
    ]
}

#[test]
fn new_operation_is_ready() {
    let op = Operation::new(create_alice());
    assert_eq!(op.phase, Phase::Ready);
    assert_eq!(op.request, create_alice());
    assert!(!op.is_done());
}

#[test]
fn undisturbed_create_acquires_executes_releases() {
    let (op, action) = Operation::new(create_alice()).step(Event::Start);
    assert_eq!(op.phase, Phase::Acquiring);
    assert_eq!(action, Action::Acquire);
    let (op, action) = op.step(Event::Acquired);
    assert_eq!(op.phase, Phase::Executing);
    assert_eq!(action, Action::Execute(create_statement("Alice", "alice@example.com")));
    let (op, action) = op.step(Event::Replied(Reply::Rows(vec![alice()])));
    assert_eq!(op.phase, Phase::Done);
    assert!(op.is_done());
    assert_eq!(action, Action::Finish { release: true, outcome: Ok(Answer::Created(alice())) });
    assert_eq!(op.request, create_alice());
}

#[test]
fn undisturbed_delete_reports_the_count() {
    let (op, action) = acquiring(Request::Delete { id: 4 }).step(Event::Acquired);
    assert_eq!(action, Action::Execute(delete_statement(4)));
    let (_, action) = op.step(Event::Replied(Reply::Affected(1)));
    assert_eq!(action, Action::Finish { release: true, outcome: Ok(Answer::Deleted(true)) });
}

#[test]
fn cancelled_before_start_has_nothing_to_release() {
    let (op, action) = Operation::new(create_alice()).step(Event::Cancelled);
    assert_eq!(op.phase, Phase::Done);
    assert_eq!(
        action,
        Action::Finish { release: false, outcome: Err(error(ErrorKind::Cancelled, CANCELLED)) }
    );
}

#[test]
fn cancelled_while_acquiring_releases_what_was_acquired() {
    let (op, action) = acquiring(create_alice()).step(Event::Cancelled);
    assert_eq!(op.phase, Phase::Done);
    assert_eq!(
        action,
        Action::Finish { release: true, outcome: Err(error(ErrorKind::Cancelled, CANCELLED)) }
    );
}

#[test]
fn cancelled_while_executing_releases_the_connection() {
    let (op, action) = executing(create_alice()).step(Event::Cancelled);
    assert_eq!(op.phase, Phase::Done);
    assert_eq!(
        action,
        Action::Finish { release: true, outcome: Err(error(ErrorKind::Cancelled, CANCELLED)) }
    );
}

#[test]
fn acquisition_timeout_is_pool_exhausted() {
    let (op, action) = acquiring(create_alice()).step(Event::Expired);
    assert_eq!(op.phase, Phase::Done);
    assert_eq!(
        action,
        Action::Finish {
            release: true,
            outcome: Err(error(ErrorKind::PoolExhausted, ACQUIRE_EXPIRED)),
        }
    );
}

#[test]
fn statement_timeout_is_a_connection_error_and_releases() {
    let (op, action) = executing(create_alice()).step(Event::Expired);
    assert_eq!(op.phase, Phase::Done);
    assert_eq!(
        action,
        Action::Finish {
            release: true,
            outcome: Err(error(ErrorKind::ConnectionError, STATEMENT_EXPIRED)),
        }
    );
}

#[test]
fn refused_acquisition_ends_without_release() {
    let refused = failure(Fault::PoolTimedOut, "pool timed out");
    let (op, action) = acquiring(create_alice()).step(Event::AcquireFailed(refused));
    assert_eq!(op.phase, Phase::Done);
    assert_eq!(
        action,
        Action::Finish {
            release: false,
            outcome: Err(error(ErrorKind::PoolExhausted, "pool timed out")),
        }
    );
    let lost = failure(Fault::Io, "connection refused");
    let (_, action) = acquiring(create_alice()).step(Event::AcquireFailed(lost));
    assert_eq!(
        action,
        Action::Finish {
            release: false,
            outcome: Err(error(ErrorKind::ConnectionError, "connection refused")),
        }
    );
}

#[test]
fn failed_statement_releases_the_connection() {
    let reply = Reply::Failed(failure(Fault::Other, "syntax error"));
    let (op, action) = executing(Request::Read { id: 1 }).step(Event::Replied(reply));
    assert_eq!(op.phase, Phase::Done);
    assert_eq!(
        action,
        Action::Finish { release: true, outcome: Err(error(ErrorKind::QueryError, "syntax error")) }
    );
}

#[test]
fn answer_of_the_wrong_form_is_a_query_error_and_releases() {
    let (_, action) =
        executing(Request::Delete { id: 1 }).step(Event::Replied(Reply::Rows(vec![alice()])));
    assert_eq!(
        action,
        Action::Finish { release: true, outcome: Err(error(ErrorKind::QueryError, ROWS_FOR_COUNT)) }
    );
}

#[test]
fn events_out_of_turn_change_nothing() {
    for event in [
        Event::Acquired,
        Event::AcquireFailed(failure(Fault::Io, "x")),
        Event::Replied(Reply::Affected(1)),
        Event::Expired,
    ] {
        let (op, action) = Operation::new(create_alice()).step(event);
        assert_eq!(op.phase, Phase::Ready);
        assert_eq!(action, Action::Continue);
    }
    for event in [Event::Start, Event::Replied(Reply::Affected(1))] {
        let (op, action) = acquiring(create_alice()).step(event);
        assert_eq!(op.phase, Phase::Acquiring);
        assert_eq!(action, Action::Continue);
    }
    for event in [Event::Start, Event::Acquired, Event::AcquireFailed(failure(Fault::Io, "x"))] {
        let (op, action) = executing(create_alice()).step(event);
        assert_eq!(op.phase, Phase::Executing);
        assert_eq!(action, Action::Continue);
    }
}

#[test]
fn nothing_happens_after_the_end() {
    for event in all_events() {
        let (done, _) = executing(create_alice()).step(Event::Cancelled);
        let (op, action) = done.step(event);
        assert_eq!(op.phase, Phase::Done);
        assert_eq!(action, Action::Continue);
    }
}

#[test]
fn any_three_events_send_one_statement_at_most_and_release_after_it() {
    let events = all_events();
    for a in 0..events.len() {
        for b in 0..events.len() {
            for c in 0..events.len() {
                let mut op = Operation::new(Request::Delete { id: 1 });
                let mut acquires = 0;
                let mut executes = 0;
                let mut finishes = 0;
                let mut releases = 0;
                for i in [a, b, c] {
                    let (next, action) = op.step(events[i].clone());
                    op = next;
                    match action {
                        Action::Acquire => acquires += 1,
                        Action::Execute(statement) => {
                            assert_eq!(statement, delete_statement(1));
                            executes += 1;
                        }
                        Action::Finish { release, .. } => {
                            finishes += 1;
                            if release {
                                releases += 1;
                            }
                        }
                        Action::Continue => {}
                    }
                }
                assert!(acquires <= 1);
                assert!(executes <= acquires);
                assert_eq!(finishes, if op.is_done() { 1 } else { 0 });
                if op.is_done() && executes == 1 {
                    assert_eq!(releases, 1);
                }
            }
        }
    }
}

use catalog_lookup::error::TransportFailure;
use catalog_lookup::request::{Method, Request, Response};
use catalog_lookup::retry::{classify, AttemptOutcome, MusicBrainzRetry, OutcomeClass, RetryState};

fn request() -> Request {
    Request::new(Method::Get, String::from("https://musicbrainz.org/ws/2/area/x"))
}

fn response(status: u16) -> Response {
    Response { status, body: Vec::new() }
}

/// Runs a call over scripted outcomes; returns the last state and the number
/// of times the request was issued again.
fn run(budget: usize, script: &[AttemptOutcome]) -> (RetryState, usize) {
    let mut state = RetryState::start(budget);
    let mut retries = 0;
    for outcome in script {
        let next = state.step(*outcome);
        if matches!(state, RetryState::Attempting(_)) && matches!(next, RetryState::Attempting(_)) {
            retries += 1;
        }
        state = next;
    }
    (state, retries)
}

#[test]
fn classifies_outcomes() {
    assert_eq!(classify(AttemptOutcome::Status(200)), OutcomeClass::Success);
    assert_eq!(classify(AttemptOutcome::Status(408)), OutcomeClass::Retryable);
    assert_eq!(classify(AttemptOutcome::Status(429)), OutcomeClass::Retryable);
    assert_eq!(classify(AttemptOutcome::TransportError), OutcomeClass::Retryable);
    for status in [100, 201, 204, 301, 400, 401, 403, 404, 407, 409, 428, 430, 500, 502, 503] {
        assert_eq!(classify(AttemptOutcome::Status(status)), OutcomeClass::NonRetryable);
    }
}

#[test]
fn subtract_takes_one() {
    assert_eq!(MusicBrainzRetry(5).subtract(), MusicBrainzRetry(4));
    assert_eq!(MusicBrainzRetry(1).subtract(), MusicBrainzRetry(0));
}

#[test]
fn retries_on_timeout_and_throttle() {
    let policy = MusicBrainzRetry(5);
    for status in [408, 429] {
        let answer = response(status);
        let next = policy.retry::<TransportFailure>(&request(), Ok(&answer));
        assert_eq!(next, Some(MusicBrainzRetry(4)));
    }
}

#[test]
fn retries_on_transport_failure() {
    let policy = MusicBrainzRetry(3);
    for failure in [TransportFailure::Timeout, TransportFailure::Network] {
        assert_eq!(policy.retry(&request(), Err(&failure)), Some(MusicBrainzRetry(2)));
    }
}

#[test]
fn does_not_retry_other_statuses() {
    let policy = MusicBrainzRetry(5);
    for status in [200, 204, 301, 400, 404, 500, 503] {
        let answer = response(status);
        assert_eq!(policy.retry::<TransportFailure>(&request(), Ok(&answer)), None);
    }
}

#[test]
fn does_not_retry_without_budget() {
    let policy = MusicBrainzRetry(0);
    let throttled = response(429);
    assert_eq!(policy.retry::<TransportFailure>(&request(), Ok(&throttled)), None);
    let timed_out = response(408);
    assert_eq!(policy.retry::<TransportFailure>(&request(), Ok(&timed_out)), None);
    assert_eq!(policy.retry(&request(), Err(&TransportFailure::Timeout)), None);
}

#[test]
fn clone_request_copies_the_request() {
    let first = request().header(String::from("Accept"), String::from("application/json"));
    let first = Request { body: Some(vec![1, 2, 3]), ..first };
    let copy = MusicBrainzRetry(2).clone_request(&first).unwrap();
    assert_eq!(copy.method, first.method);
    assert_eq!(copy.url, first.url);
    assert_eq!(copy.headers.len(), 1);
    assert_eq!(copy.headers[0].name, "Accept");
    assert_eq!(copy.headers[0].value, "application/json");
    assert_eq!(copy.body, Some(vec![1, 2, 3]));
    let plain = first.clone();
    assert_eq!(plain.url, first.url);
    assert_eq!(plain.headers.len(), 1);
}

#[test]
fn exhausted_budget_ends_in_failure() {
    for budget in [0usize, 1, 2, 5, 17] {
        let script = vec![AttemptOutcome::TransportError; budget + 1];
        assert_eq!(run(budget, &script), (RetryState::Failure, budget));
        let script = vec![AttemptOutcome::Status(429); budget + 1];
        assert_eq!(run(budget, &script), (RetryState::Failure, budget));
    }
    let mixed = [
        AttemptOutcome::Status(408),
        AttemptOutcome::TransportError,
        AttemptOutcome::Status(429),
    ];
    assert_eq!(run(2, &mixed), (RetryState::Failure, 2));
}

#[test]
fn non_retryable_failure_ends_the_call_at_once() {
    assert_eq!(run(5, &[AttemptOutcome::Status(500)]), (RetryState::Failure, 0));
    assert_eq!(run(0, &[AttemptOutcome::Status(404)]), (RetryState::Failure, 0));
    let script = [
        AttemptOutcome::TransportError,
        AttemptOutcome::Status(429),
        AttemptOutcome::Status(403),
        AttemptOutcome::TransportError,
        AttemptOutcome::Status(200),
    ];
    assert_eq!(run(5, &script), (RetryState::Failure, 2));
}

#[test]
fn success_ends_the_call() {
    assert_eq!(run(5, &[AttemptOutcome::Status(200)]), (RetryState::Done, 0));
    let script = [AttemptOutcome::TransportError, AttemptOutcome::Status(200)];
    assert_eq!(run(5, &script), (RetryState::Done, 1));
    let script = [
        AttemptOutcome::Status(200),
        AttemptOutcome::TransportError,
        AttemptOutcome::Status(500),
    ];
    assert_eq!(run(5, &script), (RetryState::Done, 0));
}

#[test]
fn steps_one_by_one() {
    let start = RetryState::start(1);
    assert_eq!(start, RetryState::Attempting(MusicBrainzRetry(1)));
    let second = start.step(AttemptOutcome::Status(408));
    assert_eq!(second, RetryState::Attempting(MusicBrainzRetry(0)));
    assert_eq!(second.step(AttemptOutcome::Status(408)), RetryState::Failure);
    assert_eq!(RetryState::Failure.step(AttemptOutcome::Status(200)), RetryState::Failure);
    assert_eq!(RetryState::Done.step(AttemptOutcome::TransportError), RetryState::Done);
}

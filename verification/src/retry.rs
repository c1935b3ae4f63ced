//! The bounded retry policy of one logical call.

use vstd::prelude::*;
use crate::request::{Request, Response};

verus! {

/// What one attempt came to, as far as the retry policy looks at it.
#[derive(Clone, Copy, Debug, PartialEq, Eq, Structural)]
pub enum AttemptOutcome {
    /// The transport answered with this status code.
    Status(u16),
    /// The transport failed, or the attempt ran out of time.
    TransportError,
}

/// The class of an attempt's outcome.
#[derive(Clone, Copy, Debug, PartialEq, Eq, Structural)]
pub enum OutcomeClass {
    Success,
    Retryable,
    NonRetryable,
}

/// Status 200 is success; 408, 429 and every transport failure are retryable;
/// everything else is not.
pub open spec fn classify_spec(outcome: AttemptOutcome) -> OutcomeClass {
    match outcome {
        AttemptOutcome::TransportError => OutcomeClass::Retryable,
        AttemptOutcome::Status(code) => if code == 200 {
            OutcomeClass::Success
        } else if code == 408 || code == 429 {
            OutcomeClass::Retryable
        } else {
            OutcomeClass::NonRetryable
        },
    }
}

/// The outcome that a transport result stands for.
pub open spec fn outcome_of<E>(result: Result<&Response, &E>) -> AttemptOutcome {
    match result {
        Ok(response) => AttemptOutcome::Status(response.status),
        Err(_) => AttemptOutcome::TransportError,
    }
}

/// Classifies the outcome of one attempt.
pub fn classify(outcome: AttemptOutcome) -> (class: OutcomeClass)
    ensures
        class == classify_spec(outcome),
{
    match outcome {
        AttemptOutcome::TransportError => OutcomeClass::Retryable,
        AttemptOutcome::Status(code) => if code == 200 {
            OutcomeClass::Success
        } else if code == 408 || code == 429 {
            OutcomeClass::Retryable
        } else {
            OutcomeClass::NonRetryable
        },
    }
}

/// The retry budget of a call: how many retries are still allowed.
#[derive(Clone, Copy, Debug, PartialEq, Eq, Structural)]
pub struct MusicBrainzRetry(pub usize);

impl MusicBrainzRetry {
    /// The policy after one retry has been spent, if one may be spent.
    pub open spec fn next_policy(self, outcome: AttemptOutcome) -> Option<MusicBrainzRetry> {
        if classify_spec(outcome) == OutcomeClass::Retryable && self.0 > 0 {
            Some(MusicBrainzRetry((self.0 - 1) as usize))
        } else {
            None
        }
    }

    /// The policy with one retry fewer.
    pub fn subtract(&self) -> (next: MusicBrainzRetry)
        requires
            self.0 > 0,
        ensures
            next.0 == self.0 - 1,
    {
        MusicBrainzRetry(self.0 - 1)
    }

    /// Decides whether the request is issued again: `Some` with the reduced
    /// budget after a retryable outcome while budget is left, `None` otherwise.
    pub fn retry<E>(&self, _request: &Request, result: Result<&Response, &E>) -> (next: Option<
        MusicBrainzRetry,
    >)
        ensures
            next == self.next_policy(outcome_of(result)),
            next.is_some() <==> RetryState::Attempting(*self).step_spec(outcome_of(result))
                is Attempting,
    {
        match result {
            Ok(response) => {
                match response.status {
                    408 | 429 => if self.0 > 0 {
                        Some(self.subtract())
                    } else {
                        None
                    },
                    _ => None,
                }
            },
            Err(_) => {
                if self.0 > 0 {
                    Some(MusicBrainzRetry(self.0 - 1))
                } else {
                    None
                }
            },
        }
    }

    /// The request to issue again: always a copy of the one given.
    pub fn clone_request(&self, request: &Request) -> (copy: Option<Request>)
        ensures
            copy.is_some(),
            copy.unwrap()@ == request@,
    {
        Some(request.clone())
    }
}

/// Where one logical call stands: still attempting with some budget left, or
/// ended, in success or in failure.
#[derive(Clone, Copy, Debug, PartialEq, Eq, Structural)]
pub enum RetryState {
    Attempting(MusicBrainzRetry),
    Done,
    Failure,
}

impl RetryState {
    /// The state after one attempt with the given outcome. An ended call
    /// stays as it is.
    pub open spec fn step_spec(self, outcome: AttemptOutcome) -> RetryState {
        match self {
            RetryState::Attempting(policy) => match classify_spec(outcome) {
                OutcomeClass::Success => RetryState::Done,
                OutcomeClass::NonRetryable => RetryState::Failure,
                OutcomeClass::Retryable => match policy.next_policy(outcome) {
                    Some(next) => RetryState::Attempting(next),
                    None => RetryState::Failure,
                },
            },
            RetryState::Done => RetryState::Done,
            RetryState::Failure => RetryState::Failure,
        }
    }

    /// Whether the step taken on this outcome issues the request again.
    pub open spec fn reissues(self, outcome: AttemptOutcome) -> bool {
        self is Attempting && self.step_spec(outcome) is Attempting
    }

    /// The state at the start of a call with the given budget.
    pub fn start(budget: usize) -> (state: RetryState)
        ensures
            state == RetryState::Attempting(MusicBrainzRetry(budget)),
    {
        RetryState::Attempting(MusicBrainzRetry(budget))
    }

    /// Takes one step of the call on the outcome of the attempt just made.
    pub fn step(self, outcome: AttemptOutcome) -> (next: RetryState)
        ensures
            next == self.step_spec(outcome),
    {
        match self {
            RetryState::Attempting(policy) => match classify(outcome) {
                OutcomeClass::Success => RetryState::Done,
                OutcomeClass::NonRetryable => RetryState::Failure,
                OutcomeClass::Retryable => if policy.0 > 0 {
                    RetryState::Attempting(policy.subtract())
                } else {
                    RetryState::Failure
                },
            },
            RetryState::Done => RetryState::Done,
            RetryState::Failure => RetryState::Failure,
        }
    }
}

/// The state after a whole sequence of attempts, taken in order.
pub open spec fn run(state: RetryState, outcomes: Seq<AttemptOutcome>) -> RetryState
    decreases outcomes.len(),
{
    if outcomes.len() == 0 {
        state
    } else {
        run(state.step_spec(outcomes.first()), outcomes.drop_first())
    }
}

/// How often the request is issued again over a whole sequence of attempts.
pub open spec fn retries(state: RetryState, outcomes: Seq<AttemptOutcome>) -> nat
    decreases outcomes.len(),
{
    if outcomes.len() == 0 {
        0
    } else {
        let rest = retries(state.step_spec(outcomes.first()), outcomes.drop_first());
        if state.reissues(outcomes.first()) {
            rest + 1
        } else {
            rest
        }
    }
}

/// A call that has ended stays ended, and issues nothing again.
pub proof fn ended_call_stays_ended(state: RetryState, outcomes: Seq<AttemptOutcome>)
    requires
        !(state is Attempting),
    ensures
        run(state, outcomes) == state,
        retries(state, outcomes) == 0,
    decreases outcomes.len(),
{
    if outcomes.len() > 0 {
        ended_call_stays_ended(state, outcomes.drop_first());
    }
}

/// With a budget of `budget` retries, `budget + 1` retryable failures in a
/// row lead to exactly `budget` retries and then to failure.
pub proof fn exhausted_budget_fails(budget: usize, outcomes: Seq<AttemptOutcome>)
    requires
        outcomes.len() == budget + 1,
        forall|i: int|
            0 <= i < outcomes.len() ==> classify_spec(#[trigger] outcomes[i])
                == OutcomeClass::Retryable,
    ensures
        run(RetryState::Attempting(MusicBrainzRetry(budget)), outcomes) == RetryState::Failure,
        retries(RetryState::Attempting(MusicBrainzRetry(budget)), outcomes) == budget,
    decreases budget,
{
    let state = RetryState::Attempting(MusicBrainzRetry(budget));
    let rest = outcomes.drop_first();
    if budget == 0 {
        assert(state.step_spec(outcomes.first()) == RetryState::Failure);
        ended_call_stays_ended(RetryState::Failure, rest);
    } else {
        let fewer = (budget - 1) as usize;
        assert(state.step_spec(outcomes.first()) == RetryState::Attempting(
            MusicBrainzRetry(fewer),
        ));
        assert forall|i: int| 0 <= i < rest.len() implies classify_spec(#[trigger] rest[i])
            == OutcomeClass::Retryable by {
            assert(rest[i] == outcomes[i + 1]);
        }
        exhausted_budget_fails(fewer, rest);
    }
}

/// After an outcome that is not retryable nothing is issued again, whatever
/// budget is left: the retries of the whole sequence are those made before
/// that attempt, and a call that was still running at it ends in failure.
pub proof fn non_retryable_outcome_stops(
    state: RetryState,
    outcomes: Seq<AttemptOutcome>,
    at: int,
)
    requires
        0 <= at < outcomes.len(),
        classify_spec(outcomes[at]) == OutcomeClass::NonRetryable,
    ensures
        retries(state, outcomes) == retries(state, outcomes.take(at)),
        !(run(state, outcomes) is Attempting),
        run(state, outcomes.take(at)) is Attempting ==> run(state, outcomes)
            == RetryState::Failure,
    decreases at,
{
    let rest = outcomes.drop_first();
    let next = state.step_spec(outcomes.first());
    if at == 0 {
        assert(outcomes.take(0) =~= Seq::<AttemptOutcome>::empty());
        ended_call_stays_ended(next, rest);
    } else {
        assert(rest[at - 1] == outcomes[at]);
        assert(outcomes.take(at).drop_first() =~= rest.take(at - 1));
        assert(outcomes.take(at).first() == outcomes.first());
        non_retryable_outcome_stops(next, rest, at - 1);
    }
}

} // verus!

//! The dispatcher: one logical call from admission to its end, under the
//! shared rate limiter and the retry policy. The dispatcher decides; waiting
//! and sending are the caller's part, done between two decisions.

use vstd::prelude::*;
use crate::admission::{Admission, AdmissionView, Entry};
use crate::config::{PipelineConfig, PipelineConfigView};
use crate::error::{MusicBrainzError, TransportFailure};
use crate::limiter::{Permit, RateLimiter, RateLimiterView};
use crate::request::{Request, Response};
use crate::retry::{outcome_of, AttemptOutcome, MusicBrainzRetry};

verus! {

/// Where a call stands in the dispatcher.
#[derive(Clone, Copy, Debug, PartialEq, Eq, Structural)]
pub enum CallState {
    /// The call waits for a slot.
    Queued,
    /// The call holds a slot and waits for a permit.
    Throttled(MusicBrainzRetry),
    /// The call holds a slot and a permit: an attempt is under way.
    Sending(MusicBrainzRetry),
    /// The call has ended and holds nothing.
    Finished,
}

/// What the caller does next.
#[derive(Clone, Copy, Debug, PartialEq, Eq, Structural)]
pub enum Action {
    /// Wait until a slot is handed over, then go on with `admitted`.
    AwaitSlot,
    /// Wait until this time, then go on with `resume`.
    AwaitPermit(u64),
    /// Send the request, give the attempt this many milliseconds, then go on
    /// with `complete`.
    Attempt(u64),
    /// Hand the outcome of the last attempt to whoever made the call.
    Return,
}

/// One decision of the dispatcher.
#[derive(Clone, Copy, Debug, PartialEq, Eq, Structural)]
pub struct Step {
    pub state: CallState,
    pub action: Action,
    /// Whether a slot was handed to a queued call, which is to be woken.
    pub wake: bool,
}

/// The mathematical content of a [`Dispatcher`].
pub ghost struct DispatcherView {
    pub config: PipelineConfigView,
    pub admission: AdmissionView,
    pub limiter: RateLimiterView,
}

impl DispatcherView {
    pub open spec fn wf(self) -> bool {
        &&& self.config.usable()
        &&& self.admission.wf()
        &&& self.limiter.wf()
        &&& self.admission.capacity == self.config.admission_capacity
        &&& self.limiter.permits == self.config.permits_per_interval
        &&& self.limiter.interval == self.config.interval_millis
    }

    /// A call that holds a slot asks for a permit at time `now`: with a
    /// permit it starts an attempt, without one it waits for the refill.
    pub open spec fn asked(self, policy: MusicBrainzRetry, now: u64) -> (DispatcherView, Step) {
        (
            DispatcherView { limiter: self.limiter.asked(now as nat), ..self },
            match self.limiter.answer(now as nat) {
                Permit::Granted => Step {
                    state: CallState::Sending(policy),
                    action: Action::Attempt(self.config.timeout_millis as u64),
                    wake: false,
                },
                Permit::WaitUntil(time) => Step {
                    state: CallState::Throttled(policy),
                    action: Action::AwaitPermit(time),
                    wake: false,
                },
            },
        )
    }

    /// A new call comes at time `now`: with a free slot it goes on to ask for
    /// a permit, with the whole budget of retries; otherwise it is queued.
    pub open spec fn begun(self, now: u64) -> (DispatcherView, Step) {
        let entered = DispatcherView { admission: self.admission.entered(), ..self };
        match self.admission.answer() {
            Entry::Admitted => entered.asked(
                MusicBrainzRetry(self.config.max_retries as usize),
                now,
            ),
            Entry::Pending => (
                entered,
                Step { state: CallState::Queued, action: Action::AwaitSlot, wake: false },
            ),
        }
    }

    /// An attempt has ended at time `now`: after a retryable outcome with
    /// budget left the call asks for a permit again, with one retry fewer;
    /// otherwise it ends and gives up its slot.
    pub open spec fn completed(self, policy: MusicBrainzRetry, outcome: AttemptOutcome, now: u64) -> (
        DispatcherView,
        Step,
    ) {
        match policy.next_policy(outcome) {
            Some(next) => self.asked(next, now),
            None => self.released(),
        }
    }

    /// A call that holds a slot ends.
    pub open spec fn released(self) -> (DispatcherView, Step) {
        (
            DispatcherView { admission: self.admission.left(), ..self },
            Step {
                state: CallState::Finished,
                action: Action::Return,
                wake: self.admission.waiting > 0,
            },
        )
    }

    /// A call is given up in the state `state`: a queued call leaves the
    /// wait, a call that holds a slot gives it up, an ended call has nothing
    /// to give up.
    pub open spec fn cancelled(self, state: CallState) -> (DispatcherView, Step) {
        match state {
            CallState::Queued => (
                DispatcherView {
                    admission: AdmissionView {
                        waiting: (self.admission.waiting - 1) as nat,
                        ..self.admission
                    },
                    ..self
                },
                Step { state: CallState::Finished, action: Action::Return, wake: false },
            ),
            CallState::Throttled(_) | CallState::Sending(_) => self.released(),
            CallState::Finished => (
                self,
                Step { state: CallState::Finished, action: Action::Return, wake: false },
            ),
        }
    }

    /// Whether a call in the state `state` can be among the calls that the
    /// dispatcher counts.
    pub open spec fn holds(self, state: CallState) -> bool {
        match state {
            CallState::Queued => self.admission.waiting > 0,
            CallState::Throttled(_) | CallState::Sending(_) => self.admission.in_flight > 0,
            CallState::Finished => true,
        }
    }
}

/// The state that all calls through one client share: the settings, the
/// admission buffer and the rate limiter.
#[derive(Debug)]
pub struct Dispatcher {
    config: PipelineConfig,
    admission: Admission,
    limiter: RateLimiter,
}

impl View for Dispatcher {
    type V = DispatcherView;

    closed spec fn view(&self) -> DispatcherView {
        DispatcherView {
            config: self.config@,
            admission: self.admission@,
            limiter: self.limiter@,
        }
    }
}

impl Dispatcher {
    #[verifier::type_invariant]
    spec fn valid(self) -> bool {
        self@.wf()
    }

    /// A dispatcher with these settings, with no call in it.
    pub fn new(config: PipelineConfig) -> (dispatcher: Dispatcher)
        ensures
            dispatcher@.wf(),
            dispatcher@.config == config@,
            dispatcher@.admission == AdmissionView::empty(config@.admission_capacity),
            dispatcher@.limiter == (RateLimiterView {
                permits: config@.permits_per_interval,
                interval: config@.interval_millis,
                remaining: 0,
                refill_at: 0,
            }),
    {
        let admission = Admission::new(&config);
        let limiter = RateLimiter::new(&config);
        Dispatcher { config, admission, limiter }
    }

    fn ask(&mut self, policy: MusicBrainzRetry, now: u64) -> (step: Step)
        requires
            old(self)@.wf(),
        ensures
            (final(self)@, step) == old(self)@.asked(policy, now),
            final(self)@.wf(),
            final(self)@.admission == old(self)@.admission,
    {
        match self.limiter.acquire(now) {
            Permit::Granted => Step {
                state: CallState::Sending(policy),
                action: Action::Attempt(self.config.timeout_millis()),
                wake: false,
            },
            Permit::WaitUntil(time) => Step {
                state: CallState::Throttled(policy),
                action: Action::AwaitPermit(time),
                wake: false,
            },
        }
    }

    /// Takes a new call in at time `now`. The call is never turned away: it
    /// is queued, or waits for a permit, or starts its first attempt.
    pub fn begin(&mut self, now: u64) -> (step: Step)
        requires
            old(self)@.admission.waiting < usize::MAX,
        ensures
            old(self)@.wf(),
            (final(self)@, step) == old(self)@.begun(now),
            final(self)@.wf(),
            final(self)@.holds(step.state),
    {
        proof {
            use_type_invariant(&*self);
        }
        match self.admission.enter() {
            Entry::Admitted => {
                let policy = MusicBrainzRetry(self.config.max_retries());
                self.ask(policy, now)
            },
            Entry::Pending => Step {
                state: CallState::Queued,
                action: Action::AwaitSlot,
                wake: false,
            },
        }
    }

    /// Goes on with a queued call that was handed a slot: it asks for a
    /// permit, with the whole budget of retries.
    pub fn admitted(&mut self, now: u64) -> (step: Step)
        ensures
            old(self)@.wf(),
            (final(self)@, step) == old(self)@.asked(
                MusicBrainzRetry(old(self)@.config.max_retries as usize),
                now,
            ),
            final(self)@.wf(),
    {
        proof {
            use_type_invariant(&*self);
        }
        let policy = MusicBrainzRetry(self.config.max_retries());
        self.ask(policy, now)
    }

    /// Goes on with a call that waited for a permit: it asks again.
    pub fn resume(&mut self, policy: MusicBrainzRetry, now: u64) -> (step: Step)
        ensures
            old(self)@.wf(),
            (final(self)@, step) == old(self)@.asked(policy, now),
            final(self)@.wf(),
    {
        proof {
            use_type_invariant(&*self);
        }
        self.ask(policy, now)
    }

    /// Goes on with a call whose attempt has ended, in a response or in a
    /// failure of the transport, at time `now`.
    pub fn complete(
        &mut self,
        policy: MusicBrainzRetry,
        request: &Request,
        result: Result<&Response, &TransportFailure>,
        now: u64,
    ) -> (step: Step)
        requires
            old(self)@.admission.in_flight > 0,
        ensures
            old(self)@.wf(),
            (final(self)@, step) == old(self)@.completed(policy, outcome_of(result), now),
            final(self)@.wf(),
    {
        proof {
            use_type_invariant(&*self);
        }
        match policy.retry(request, result) {
            Some(next) => self.ask(next, now),
            None => {
                let wake = self.admission.leave();
                Step { state: CallState::Finished, action: Action::Return, wake }
            },
        }
    }

    /// Gives a call up in whatever state it is: what it holds is given back.
    /// A permit is taken only as an attempt starts, so a call that waits
    /// holds none.
    pub fn cancel(&mut self, state: CallState) -> (step: Step)
        requires
            old(self)@.holds(state),
        ensures
            old(self)@.wf(),
            (final(self)@, step) == old(self)@.cancelled(state),
            final(self)@.wf(),
    {
        proof {
            use_type_invariant(&*self);
        }
        match state {
            CallState::Queued => {
                self.admission.withdraw();
                Step { state: CallState::Finished, action: Action::Return, wake: false }
            },
            CallState::Throttled(_) | CallState::Sending(_) => {
                let wake = self.admission.leave();
                Step { state: CallState::Finished, action: Action::Return, wake }
            },
            CallState::Finished => Step {
                state: CallState::Finished,
                action: Action::Return,
                wake: false,
            },
        }
    }

    /// The settings of the dispatcher.
    pub fn config(&self) -> (config: &PipelineConfig)
        ensures
            config@ == self@.config,
    {
        &self.config
    }

    /// The calls that hold a slot.
    pub fn in_flight(&self) -> (count: usize)
        ensures
            count == self@.admission.in_flight,
    {
        self.admission.in_flight()
    }

    /// The calls that wait for a slot.
    pub fn waiting(&self) -> (count: usize)
        ensures
            count == self@.admission.waiting,
    {
        self.admission.waiting()
    }
}

/// A new call is never turned away for want of a slot: it is queued, or it
/// goes on, and the calls that hold a slot stay within the capacity.
pub proof fn a_new_call_is_never_turned_away(dispatcher: DispatcherView, now: u64)
    requires
        dispatcher.wf(),
    ensures
        dispatcher.begun(now).1.state != CallState::Finished,
        dispatcher.begun(now).1.action != Action::Return,
        dispatcher.begun(now).1.state == CallState::Queued <==> dispatcher.admission.in_flight
            == dispatcher.admission.capacity,
        dispatcher.begun(now).0.admission.in_flight <= dispatcher.admission.capacity,
{
}

/// An attempt starts only with a permit: a call that asks goes on to send
/// exactly when the limiter grants one, and is otherwise told to wait for
/// the refill, which lies ahead.
pub proof fn an_attempt_takes_a_permit(dispatcher: DispatcherView, policy: MusicBrainzRetry, now: u64)
    requires
        dispatcher.wf(),
    ensures
        dispatcher.asked(policy, now).1.state == CallState::Sending(policy)
            <==> dispatcher.limiter.answer(now as nat) == Permit::Granted,
        dispatcher.asked(policy, now).1.state != CallState::Sending(policy) ==> {
            &&& dispatcher.asked(policy, now).1.state == CallState::Throttled(policy)
            &&& dispatcher.asked(policy, now).1.action == Action::AwaitPermit(
                dispatcher.limiter.refill_at as u64,
            )
            &&& now < dispatcher.limiter.refill_at
        },
{
}

/// What the dispatcher hands back for the last attempt of a call: the
/// response as it came, whatever its status, or `ClientGet` with the failure
/// of the transport.
pub fn settle(result: Result<Response, TransportFailure>) -> (answer: Result<
    Response,
    MusicBrainzError,
>)
    ensures
        answer == match result {
            Ok(response) => Ok::<Response, MusicBrainzError>(response),
            Err(failure) => Err(MusicBrainzError::ClientGet(failure)),
        },
{
    match result {
        Ok(response) => Ok(response),
        Err(failure) => Err(MusicBrainzError::ClientGet(failure)),
    }
}

} // verus!

//! The retry machine: which action follows which event while one request to
//! the backend is tried again and again.
//!
//! The machine performs nothing itself. Its driver sends the request, sleeps
//! and probes the backend's health as the machine says, and reports what
//! came of it.

use vstd::prelude::*;
use vstd::string::StringExecFns;
use crate::errors::{ErrorView, SamplyBeamError};
use crate::health::{HealthState, HealthView};
use crate::status::{is_client_error_code, is_redirection_code, is_success_code, status_display,
    StatusCode};
use crate::text::{decimal_string, decimal_text};

verus! {

/// What one attempt came to.
#[derive(Debug, Clone, PartialEq, Eq)]
pub enum RetryOutcome {
    /// The backend answered with this success status.
    Success(StatusCode),
    /// The attempt failed in a way that another attempt may mend.
    RetryableFailure,
    /// The attempt failed for good.
    FatalFailure(SamplyBeamError),
}

/// The mathematical value of a [`RetryOutcome`].
pub enum RetryOutcomeView {
    Success(u16),
    RetryableFailure,
    FatalFailure(ErrorView),
}

impl View for RetryOutcome {
    type V = RetryOutcomeView;

    open spec fn view(&self) -> RetryOutcomeView {
        match *self {
            RetryOutcome::Success(status) => RetryOutcomeView::Success(status@),
            RetryOutcome::RetryableFailure => RetryOutcomeView::RetryableFailure,
            RetryOutcome::FatalFailure(e) => RetryOutcomeView::FatalFailure(e@),
        }
    }
}

/// What the driver reports to the machine.
#[derive(Debug, Clone, PartialEq, Eq)]
pub enum RetryEvent {
    /// The request could not be sent or no response came.
    TransportFailed,
    /// The request was answered with this status.
    Responded(StatusCode),
    /// The health probe that the machine asked for gave this diagnosis.
    Diagnosed(HealthState),
}

/// The mathematical value of a [`RetryEvent`].
pub enum RetryEventView {
    TransportFailed,
    Responded(u16),
    Diagnosed(HealthView),
}

impl View for RetryEvent {
    type V = RetryEventView;

    open spec fn view(&self) -> RetryEventView {
        match *self {
            RetryEvent::TransportFailed => RetryEventView::TransportFailed,
            RetryEvent::Responded(status) => RetryEventView::Responded(status@),
            RetryEvent::Diagnosed(health) => RetryEventView::Diagnosed(health@),
        }
    }
}

/// What the machine tells its driver to do next.
#[derive(Debug, Clone, PartialEq, Eq)]
pub enum RetryAction {
    /// Send the request; if `pause` is set, sleep [`PAUSE_SECONDS`] first.
    Send { pause: bool },
    /// Probe the backend's health and report the diagnosis.
    ProbeHealth,
    /// Stop: the request succeeded with this status.
    Succeed(StatusCode),
    /// Stop: the request failed.
    Fail(SamplyBeamError),
}

/// The mathematical value of a [`RetryAction`].
pub enum RetryActionView {
    Send { pause: bool },
    ProbeHealth,
    Succeed(u16),
    Fail(ErrorView),
}

impl View for RetryAction {
    type V = RetryActionView;

    open spec fn view(&self) -> RetryActionView {
        match *self {
            RetryAction::Send { pause } => RetryActionView::Send { pause },
            RetryAction::ProbeHealth => RetryActionView::ProbeHealth,
            RetryAction::Succeed(status) => RetryActionView::Succeed(status@),
            RetryAction::Fail(e) => RetryActionView::Fail(e@),
        }
    }
}

/// The seconds to sleep between two attempts.
pub const PAUSE_SECONDS: u64 = 1;

/// The state of the machine: the limit on attempts, if there is one, and
/// the number of attempts begun so far.
pub struct RetryState {
    pub max_tries: Option<u32>,
    pub tries: u32,
}

/// The state before the first attempt.
pub open spec fn initial_state(max_tries: Option<u32>) -> RetryState {
    RetryState { max_tries, tries: 0 }
}

/// No more attempts are begun than the limit allows.
pub open spec fn within_limit(s: RetryState) -> bool {
    s.max_tries matches Some(max) ==> s.tries <= max
}

/// The limit is reached: no further attempt may begin.
pub open spec fn exhausted(s: RetryState) -> bool {
    s.max_tries matches Some(max) && s.tries >= max
}

/// The detail of the failure that ends a run of `max` fruitless attempts.
pub open spec fn exhaustion_text(max: u32) -> Seq<char> {
    "unable to communicate after "@ + decimal_text(max as nat) + " attempts"@
}

/// The failure that ends a run of `max` fruitless attempts.
pub open spec fn exhaustion_error(max: u32) -> ErrorView {
    ErrorView::VaultOtherError(exhaustion_text(max))
}

/// The detail of the failure for a client error or a redirection. The
/// status stands in it as `http` prints it: the number and the reason
/// phrase.
pub open spec fn client_error_text(code: u16) -> Seq<char> {
    "Samply.PKI: Vault reported client-side error (code "@ + status_display(code) + ")"@
}

/// The attempt counter after one more attempt. Without a limit it stops
/// counting at the largest number it can hold.
pub open spec fn count_up(tries: u32) -> u32 {
    if tries < u32::MAX {
        (tries + 1) as u32
    } else {
        tries
    }
}

/// What an event says of the attempt it belongs to, or `None` where only a
/// health probe can tell.
///
/// A transport failure can be retried. A success status ends the run. A
/// client error or a redirection is fatal at once. Any other status needs a
/// diagnosis. Of the diagnoses only a redirection is fatal: sealed,
/// uninitialized, unreachable, erroneous and even healthy all lead to
/// another attempt.
pub open spec fn outcome_of(event: RetryEventView) -> Option<RetryOutcomeView> {
    match event {
        RetryEventView::TransportFailed => Some(RetryOutcomeView::RetryableFailure),
        RetryEventView::Responded(code) => {
            if is_success_code(code) {
                Some(RetryOutcomeView::Success(code))
            } else if is_client_error_code(code) || is_redirection_code(code) {
                Some(
                    RetryOutcomeView::FatalFailure(
                        ErrorView::VaultOtherError(client_error_text(code)),
                    ),
                )
            } else {
                None
            }
        },
        RetryEventView::Diagnosed(health) => match health {
            HealthView::Redirected { status, location } => Some(
                RetryOutcomeView::FatalFailure(ErrorView::VaultRedirectError(status, location)),
            ),
            _ => Some(RetryOutcomeView::RetryableFailure),
        },
    }
}

/// Begins the next attempt, or gives up where the limit is reached. Every
/// attempt but the first is preceded by a pause.
pub open spec fn proceed(s: RetryState) -> (RetryState, RetryActionView) {
    if exhausted(s) {
        (s, RetryActionView::Fail(exhaustion_error(s.max_tries->0)))
    } else {
        (
            RetryState { max_tries: s.max_tries, tries: count_up(s.tries) },
            RetryActionView::Send { pause: s.tries > 0 },
        )
    }
}

/// The transition of the machine: the state and the action that follow an
/// event.
pub open spec fn step_of(s: RetryState, event: RetryEventView) -> (RetryState, RetryActionView) {
    match outcome_of(event) {
        None => (s, RetryActionView::ProbeHealth),
        Some(RetryOutcomeView::Success(code)) => (s, RetryActionView::Succeed(code)),
        Some(RetryOutcomeView::FatalFailure(e)) => (s, RetryActionView::Fail(e)),
        Some(RetryOutcomeView::RetryableFailure) => proceed(s),
    }
}

/// The actions with which a machine in state `s` answers `events`, one
/// action for each event in turn, and the state it is left in.
pub open spec fn run(s: RetryState, events: Seq<RetryEventView>) -> (RetryState, Seq<RetryActionView>)
    decreases events.len(),
{
    if events.len() == 0 {
        (s, Seq::empty())
    } else {
        let (before, actions) = run(s, events.drop_last());
        let (after, action) = step_of(before, events.last());
        (after, actions.push(action))
    }
}

/// A whole run: the action that begins it, then one action for each event.
pub open spec fn run_from_start(max_tries: Option<u32>, events: Seq<RetryEventView>) -> (
    RetryState,
    Seq<RetryActionView>,
) {
    let (begun, first) = proceed(initial_state(max_tries));
    let (after, actions) = run(begun, events);
    (after, seq![first] + actions)
}

/// The number of times that `actions` tell the driver to send the request.
pub open spec fn sends_in(actions: Seq<RetryActionView>) -> nat
    decreases actions.len(),
{
    if actions.len() == 0 {
        0
    } else {
        sends_in(actions.drop_last()) + if actions.last() is Send {
            1nat
        } else {
            0nat
        }
    }
}

/// Whether `actions` ever tell the driver to probe the backend's health.
pub open spec fn probes_in(actions: Seq<RetryActionView>) -> bool {
    exists|i: int| 0 <= i < actions.len() && actions[i] is ProbeHealth
}

/// One step keeps the attempts within the limit, and the counter grows by
/// one exactly when the step sends the request.
pub proof fn lemma_step_counts(s: RetryState, event: RetryEventView)
    requires
        within_limit(s),
        s.max_tries is Some,
    ensures
        within_limit(step_of(s, event).0),
        step_of(s, event).0.max_tries == s.max_tries,
        step_of(s, event).0.tries == s.tries + if step_of(s, event).1 is Send {
            1int
        } else {
            0int
        },
{
}

/// With a limit of `max`, the machine tells its driver to send the request
/// as often as its counter says, and never more than `max` times, whatever
/// events it is fed.
pub proof fn lemma_attempts_bounded(max: u32, events: Seq<RetryEventView>)
    ensures
        run_from_start(Some(max), events).0.max_tries == Some(max),
        sends_in(run_from_start(Some(max), events).1) == run_from_start(Some(max), events).0.tries,
        sends_in(run_from_start(Some(max), events).1) <= max,
    decreases events.len(),
{
    let (begun, first) = proceed(initial_state(Some(max)));
    let (after, actions) = run(begun, events);
    let all = seq![first] + actions;
    if events.len() == 0 {
        assert(all =~= seq![first]);
        assert(all.drop_last() =~= Seq::<RetryActionView>::empty());
        assert(sends_in(all.drop_last()) == 0);
    } else {
        lemma_attempts_bounded(max, events.drop_last());
        let (before, earlier) = run(begun, events.drop_last());
        lemma_step_counts(before, events.last());
        assert(all.drop_last() =~= seq![first] + earlier);
    }
}

/// After any run with a limit of `max`, an event that calls for another
/// attempt ends the run with the failure of exhaustion exactly when `max`
/// attempts have been made; before that it leads to another attempt.
pub proof fn lemma_gives_up_after_limit(
    max: u32,
    events: Seq<RetryEventView>,
    last: RetryEventView,
)
    requires
        outcome_of(last) == Some(RetryOutcomeView::RetryableFailure),
    ensures
        ({
            let (s, actions) = run_from_start(Some(max), events);
            let (after, action) = step_of(s, last);
            if sends_in(actions) == max {
                action == RetryActionView::Fail(exhaustion_error(max)) && after == s
            } else {
                action == (RetryActionView::Send { pause: sends_in(actions) > 0 })
                    && after.tries == s.tries + 1
            }
        }),
{
    lemma_attempts_bounded(max, events);
}

/// A success status on the first attempt ends the run at once: one
/// attempt, without a pause, and no health probe.
pub proof fn lemma_success_on_first_attempt(max_tries: Option<u32>, code: u16)
    requires
        is_success_code(code),
        max_tries != Some(0u32),
    ensures
        run_from_start(max_tries, seq![RetryEventView::Responded(code)]).1 == seq![
            RetryActionView::Send { pause: false },
            RetryActionView::Succeed(code),
        ],
        run_from_start(max_tries, seq![RetryEventView::Responded(code)]).0.tries == 1,
        !probes_in(run_from_start(max_tries, seq![RetryEventView::Responded(code)]).1),
{
    let events = seq![RetryEventView::Responded(code)];
    let (begun, first) = proceed(initial_state(max_tries));
    assert(events.drop_last() =~= Seq::<RetryEventView>::empty());
    assert(run(begun, events.drop_last()).1 =~= Seq::<RetryActionView>::empty());
    let actions = run_from_start(max_tries, events).1;
    assert(actions =~= seq![
        RetryActionView::Send { pause: false },
        RetryActionView::Succeed(code),
    ]);
}

/// A client error or a redirection on the first attempt is fatal at once:
/// one attempt, no retry and no health probe.
pub proof fn lemma_client_error_is_fatal(max_tries: Option<u32>, code: u16)
    requires
        is_client_error_code(code) || is_redirection_code(code),
        max_tries != Some(0u32),
    ensures
        run_from_start(max_tries, seq![RetryEventView::Responded(code)]).1 == seq![
            RetryActionView::Send { pause: false },
            RetryActionView::Fail(ErrorView::VaultOtherError(client_error_text(code))),
        ],
        run_from_start(max_tries, seq![RetryEventView::Responded(code)]).0.tries == 1,
        !probes_in(run_from_start(max_tries, seq![RetryEventView::Responded(code)]).1),
{
    let events = seq![RetryEventView::Responded(code)];
    let (begun, first) = proceed(initial_state(max_tries));
    assert(events.drop_last() =~= Seq::<RetryEventView>::empty());
    assert(run(begun, events.drop_last()).1 =~= Seq::<RetryActionView>::empty());
    let actions = run_from_start(max_tries, events).1;
    assert(actions =~= seq![
        RetryActionView::Send { pause: false },
        RetryActionView::Fail(ErrorView::VaultOtherError(client_error_text(code))),
    ]);
}

/// A status that needs a diagnosis, then a diagnosis other than a
/// redirection, then a success status: the run takes exactly two attempts,
/// the second after a pause, and succeeds.
pub proof fn lemma_second_attempt_succeeds(
    max_tries: Option<u32>,
    first: u16,
    health: HealthView,
    second: u16,
)
    requires
        outcome_of(RetryEventView::Responded(first)) is None,
        !(health is Redirected),
        is_success_code(second),
        max_tries matches Some(max) ==> max >= 2,
    ensures
        ({
            let events = seq![
                RetryEventView::Responded(first),
                RetryEventView::Diagnosed(health),
                RetryEventView::Responded(second),
            ];
            &&& run_from_start(max_tries, events).1 == seq![
                RetryActionView::Send { pause: false },
                RetryActionView::ProbeHealth,
                RetryActionView::Send { pause: true },
                RetryActionView::Succeed(second),
            ]
            &&& run_from_start(max_tries, events).0.tries == 2
        }),
{
    let e1 = RetryEventView::Responded(first);
    let e2 = RetryEventView::Diagnosed(health);
    let e3 = RetryEventView::Responded(second);
    let events = seq![e1, e2, e3];
    let (begun, a0) = proceed(initial_state(max_tries));
    assert(events.drop_last() =~= seq![e1, e2]);
    assert(seq![e1, e2].drop_last() =~= seq![e1]);
    assert(seq![e1].drop_last() =~= Seq::<RetryEventView>::empty());
    let r0 = run(begun, Seq::<RetryEventView>::empty());
    assert(r0.0 == begun && r0.1 =~= Seq::<RetryActionView>::empty());
    let r1 = run(begun, seq![e1]);
    assert(seq![e1].last() == e1);
    assert(r1.0 == begun && r1.1 =~= seq![RetryActionView::ProbeHealth]);
    let r2 = run(begun, seq![e1, e2]);
    assert(seq![e1, e2].last() == e2);
    assert(r2.0.tries == 2 && r2.0.max_tries == max_tries);
    assert(r2.1 =~= seq![RetryActionView::ProbeHealth, RetryActionView::Send { pause: true }]);
    let r3 = run(begun, events);
    assert(events.last() == e3);
    assert(r3.0 == r2.0);
    assert(r3.1 =~= seq![
        RetryActionView::ProbeHealth,
        RetryActionView::Send { pause: true },
        RetryActionView::Succeed(second),
    ]);
    assert(run_from_start(max_tries, events).1 =~= seq![
        RetryActionView::Send { pause: false },
        RetryActionView::ProbeHealth,
        RetryActionView::Send { pause: true },
        RetryActionView::Succeed(second),
    ]);
}

/// With a limit of one attempt, a failure that could be retried ends the
/// run: the request is sent once and never again.
pub proof fn lemma_single_attempt_never_retries(event: RetryEventView)
    requires
        outcome_of(event) == Some(RetryOutcomeView::RetryableFailure),
    ensures
        run_from_start(Some(1u32), seq![event]).1 == seq![
            RetryActionView::Send { pause: false },
            RetryActionView::Fail(exhaustion_error(1)),
        ],
{
    let events = seq![event];
    let (begun, first) = proceed(initial_state(Some(1u32)));
    assert(events.drop_last() =~= Seq::<RetryEventView>::empty());
    assert(run(begun, events.drop_last()).1 =~= Seq::<RetryActionView>::empty());
    assert(run_from_start(Some(1u32), events).1 =~= seq![
        RetryActionView::Send { pause: false },
        RetryActionView::Fail(exhaustion_error(1)),
    ]);
}

/// Classifies an event: what it says of the attempt, or `None` where the
/// backend's health has to be probed first.
pub fn classify(event: RetryEvent) -> (outcome: Option<RetryOutcome>)
    ensures
        match outcome {
            Some(o) => outcome_of(event@) == Some(o@),
            None => outcome_of(event@) is None,
        },
{
    match event {
        RetryEvent::TransportFailed => Some(RetryOutcome::RetryableFailure),
        RetryEvent::Responded(status) => {
            if status.is_success() {
                Some(RetryOutcome::Success(status))
            } else if status.is_client_error() || status.is_redirection() {
                let mut detail = String::from_str(
                    "Samply.PKI: Vault reported client-side error (code ",
                );
                let code = status.text();
                detail.append(code.as_str());
                detail.append(")");
                Some(RetryOutcome::FatalFailure(SamplyBeamError::VaultOtherError(detail)))
            } else {
                None
            }
        },
        RetryEvent::Diagnosed(health) => match health {
            HealthState::Redirected { status, location } => Some(
                RetryOutcome::FatalFailure(SamplyBeamError::VaultRedirectError(status, location)),
            ),
            _ => Some(RetryOutcome::RetryableFailure),
        },
    }
}

/// The retry machine of one request.
#[derive(Debug, Clone, Copy, PartialEq, Eq)]
pub struct RetryMachine {
    max_tries: Option<u32>,
    tries: u32,
}

impl View for RetryMachine {
    type V = RetryState;

    closed spec fn view(&self) -> RetryState {
        RetryState { max_tries: self.max_tries, tries: self.tries }
    }
}

impl RetryMachine {
    #[verifier::type_invariant]
    closed spec fn limit_kept(self) -> bool {
        within_limit(self@)
    }

    /// A machine that has begun no attempt. With `None` for `max_tries` it
    /// never gives up.
    pub fn new(max_tries: Option<u32>) -> (machine: RetryMachine)
        ensures
            machine@ == initial_state(max_tries),
    {
        RetryMachine { max_tries, tries: 0 }
    }

    /// The limit on attempts, if there is one.
    pub fn max_tries(&self) -> (max: Option<u32>)
        ensures
            max == self@.max_tries,
    {
        self.max_tries
    }

    /// The number of attempts begun so far. It never exceeds the limit.
    pub fn tries(&self) -> (tries: u32)
        ensures
            tries == self@.tries,
            within_limit(self@),
    {
        proof {
            use_type_invariant(self);
        }
        self.tries
    }

    /// Begins the run: the first attempt, or failure at once where no
    /// attempt is allowed.
    pub fn start(&mut self) -> (action: RetryAction)
        ensures
            (final(self)@, action@) == proceed(old(self)@),
    {
        self.proceed()
    }

    /// Takes in what came of the last action and says what to do next.
    ///
    /// The machine takes every event for what it says, whether or not it
    /// asked for it: its only memory is the number of attempts, so no order
    /// of events can make it send the request more often than the limit
    /// allows.
    pub fn step(&mut self, event: RetryEvent) -> (action: RetryAction)
        ensures
            (final(self)@, action@) == step_of(old(self)@, event@),
    {
        match classify(event) {
            None => RetryAction::ProbeHealth,
            Some(RetryOutcome::Success(status)) => RetryAction::Succeed(status),
            Some(RetryOutcome::FatalFailure(e)) => RetryAction::Fail(e),
            Some(RetryOutcome::RetryableFailure) => self.proceed(),
        }
    }

    fn proceed(&mut self) -> (action: RetryAction)
        ensures
            (final(self)@, action@) == proceed(old(self)@),
    {
        proof {
            use_type_invariant(&*self);
        }
        match self.max_tries {
            Some(max) if self.tries >= max => {
                let mut detail = String::from_str("unable to communicate after ");
                let count = decimal_string(max as u64);
                detail.append(count.as_str());
                detail.append(" attempts");
                return RetryAction::Fail(SamplyBeamError::VaultOtherError(detail));
            },
            _ => {},
        }
        let pause = self.tries > 0;
        if self.tries < u32::MAX {
            self.tries = self.tries + 1;
        }
        RetryAction::Send { pause }
    }
}

} // verus!

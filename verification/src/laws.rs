//! What holds of every call, whatever events it meets.

use crate::classify::{Outcome, is_success_status, outcome_of};
use crate::config::ConfigView;
use crate::dispatch::{ActionView, DispatchView, EventView, PhaseView, start_of};
use crate::error::{DispatchErrorView, Endpoint};
use crate::retry::attempt_cap;
use vstd::prelude::*;

verus! {

/// One step of a call: the state that took the event, the event, and the
/// state and the action that followed.
pub struct Step {
    pub before: DispatchView,
    pub event: EventView,
    pub after: DispatchView,
    pub action: ActionView,
}

/// The steps that a call takes from `state` on `events`, up to the first
/// event that does not answer the action before it.
pub open spec fn steps(state: DispatchView, events: Seq<EventView>) -> Seq<Step>
    decreases events.len(),
{
    if events.len() == 0 || !state.accepts(events.first()) {
        Seq::empty()
    } else {
        let (after, action) = state.next(events.first());
        seq![Step { before: state, event: events.first(), after, action }] + steps(
            after,
            events.drop_first(),
        )
    }
}

/// The number of steps of `taken` that `counted` holds of.
pub open spec fn count(taken: Seq<Step>, counted: spec_fn(Step) -> bool) -> nat
    decreases taken.len(),
{
    if taken.len() == 0 {
        0
    } else {
        (if counted(taken.first()) {
            1nat
        } else {
            0nat
        }) + count(taken.drop_first(), counted)
    }
}

/// Whether the step asks for a request to be sent.
pub open spec fn sends(step: Step) -> bool {
    step.action is Send
}

/// Whether the step reports a spent quota to the pool.
pub open spec fn reports_quota(step: Step) -> bool {
    step.action is ReportQuotaExhausted
}

/// Whether the step reports an authentication failure to the pool.
pub open spec fn reports_failure(step: Step) -> bool {
    step.action is ReportFailure
}

/// Whether the step reports a success to the pool.
pub open spec fn reports_success(step: Step) -> bool {
    step.action is Succeed
}

/// Whether the step reports anything to the pool.
pub open spec fn reports(step: Step) -> bool {
    reports_quota(step) || reports_failure(step) || reports_success(step)
}

/// Whether the step ends the call.
pub open spec fn ends(step: Step) -> bool {
    step.action is Succeed || step.action is Fail
}

/// The class of the answer that the step learns, where the step takes the
/// body of an answer.
pub open spec fn verdict(step: Step) -> Option<Outcome> {
    match (step.before.phase, step.event) {
        (PhaseView::ReadingBody { status, .. }, EventView::BodyRead { body }) => Some(
            outcome_of(status, body),
        ),
        _ => None,
    }
}

/// Whether the step learns that the quota of the credential is spent.
pub open spec fn finds_quota_spent(step: Step) -> bool {
    verdict(step) == Some(Outcome::QuotaExhausted)
}

/// Whether the step learns that the service refused the credential.
pub open spec fn finds_auth_failure(step: Step) -> bool {
    verdict(step) == Some(Outcome::AuthFailure)
}

/// Whether the step takes the status of a success.
pub open spec fn finds_success(step: Step) -> bool {
    &&& step.before.phase is Sending
    &&& step.event matches EventView::Responded { status }
    &&& is_success_status(status)
}

/// The requests that a call in `state` may still send.
pub open spec fn sends_left(state: DispatchView) -> int {
    match state.phase {
        PhaseView::Acquiring => state.max_retries - state.attempt,
        PhaseView::Finished => 0,
        _ => state.max_retries - state.attempt - 1,
    }
}

/// How far a call has come: its attempts weigh most, and within an attempt
/// the phases follow each other.
pub open spec fn progress(state: DispatchView) -> int {
    let attempt = state.attempt as int;
    match state.phase {
        PhaseView::Acquiring => 6 * attempt,
        PhaseView::Sending { .. } => 6 * attempt + 1,
        PhaseView::ReadingBody { .. } => 6 * attempt + 2,
        PhaseView::Reporting { .. } => 6 * attempt + 3,
        PhaseView::Sleeping => 6 * attempt + 4,
        PhaseView::Finished => 6 * (state.max_retries as int) + 6,
    }
}

/// A step from a state that a call can reach leads to such a state, moves
/// the call forward, and stays within the requests that are left.
pub proof fn lemma_step(state: DispatchView, event: EventView)
    requires
        state.well_formed(),
        state.accepts(event),
    ensures
        state.next(event).0.well_formed(),
        state.next(event).0.max_retries == state.max_retries,
        state.next(event).0.endpoint == state.endpoint,
        state.next(event).0.config == state.config,
        progress(state) < progress(state.next(event).0),
        sends_left(state.next(event).0) + (if state.next(event).1 is Send {
            1int
        } else {
            0int
        }) <= sends_left(state),
        sends_left(state) >= 0,
{
}

/// The first step of a run, and the run that follows it.
pub proof fn lemma_steps_unfold(state: DispatchView, events: Seq<EventView>)
    requires
        events.len() > 0,
        state.accepts(events.first()),
    ensures
        steps(state, events).len() > 0,
        steps(state, events).first() == (Step {
            before: state,
            event: events.first(),
            after: state.next(events.first()).0,
            action: state.next(events.first()).1,
        }),
        steps(state, events).drop_first() == steps(
            state.next(events.first()).0,
            events.drop_first(),
        ),
{
    let (after, action) = state.next(events.first());
    let head = seq![Step { before: state, event: events.first(), after, action }];
    let tail = steps(after, events.drop_first());
    assert((head + tail).drop_first() =~= tail);
}

/// Every step of a run starts in a state that a call can reach, takes an
/// event that the state accepts, and is the step that the state takes on
/// it; and the run proceeds: each step starts where the one before ended.
pub proof fn lemma_steps_sound(state: DispatchView, events: Seq<EventView>, i: int)
    requires
        state.well_formed(),
        0 <= i < steps(state, events).len(),
    ensures
        steps(state, events)[i].before.well_formed(),
        steps(state, events)[i].before.accepts(steps(state, events)[i].event),
        steps(state, events)[i].before.next(steps(state, events)[i].event) == (
            steps(state, events)[i].after,
            steps(state, events)[i].action,
        ),
        steps(state, events)[i].before.max_retries == state.max_retries,
        progress(state) <= progress(steps(state, events)[i].before),
        i > 0 ==> steps(state, events)[i].before == steps(state, events)[i - 1].after,
    decreases events.len(),
{
    if events.len() == 0 || !state.accepts(events.first()) {
    } else {
        lemma_steps_unfold(state, events);
        lemma_step(state, events.first());
        let after = state.next(events.first()).0;
        let rest = steps(after, events.drop_first());
        if i > 0 {
            lemma_steps_sound(after, events.drop_first(), i - 1);
            assert(steps(state, events)[i] == rest[i - 1]);
            if i > 1 {
                assert(steps(state, events)[i - 1] == rest[i - 2]);
            }
        }
    }
}

/// A call moves forward with every step: of two steps of a run the later
/// starts further on.
pub proof fn lemma_steps_progress(state: DispatchView, events: Seq<EventView>, i: int, j: int)
    requires
        state.well_formed(),
        0 <= i < j < steps(state, events).len(),
    ensures
        progress(steps(state, events)[i].before) < progress(steps(state, events)[j].before),
    decreases j - i,
{
    lemma_steps_sound(state, events, j);
    lemma_steps_sound(state, events, j - 1);
    let earlier = steps(state, events)[j - 1];
    lemma_step(earlier.before, earlier.event);
    if i < j - 1 {
        lemma_steps_progress(state, events, i, j - 1);
    }
}

/// From a state that a call can reach, no more requests are sent than the
/// state has left.
pub proof fn lemma_sends_bounded_from(state: DispatchView, events: Seq<EventView>)
    requires
        state.well_formed(),
    ensures
        count(steps(state, events), |step: Step| sends(step)) <= sends_left(state),
    decreases events.len(),
{
    let counted = |step: Step| sends(step);
    if events.len() == 0 || !state.accepts(events.first()) {
        assert(steps(state, events).len() == 0);
        assert(sends_left(state) >= 0);
    } else {
        lemma_steps_unfold(state, events);
        lemma_step(state, events.first());
        lemma_sends_bounded_from(state.next(events.first()).0, events.drop_first());
    }
}

/// A call over `total` credentials sends at most three requests for each
/// credential and never more than nine, whatever answers it meets.
pub proof fn lemma_attempts_within_budget(
    config: ConfigView,
    endpoint: Endpoint,
    total: nat,
    events: Seq<EventView>,
)
    ensures
        start_of(config, endpoint, total).1 !is Send,
        count(steps(start_of(config, endpoint, total).0, events), |step: Step| sends(step))
            <= attempt_cap(total),
        attempt_cap(total) <= 9,
        attempt_cap(total) <= 3 * total,
{
    lemma_sends_bounded_from(start_of(config, endpoint, total).0, events);
}

/// A step reports to the pool only what the answer of that attempt says of
/// the credential: a spent quota where the answer is classified so, an
/// authentication failure after status 401 or 403, a success after a status
/// from 200 to 299, each for the credential of the attempt. No other step
/// reports anything: a transport error, a transient answer and an answer
/// that refuses the request leave the credential as it was.
pub proof fn lemma_reports_follow_verdict(state: DispatchView, event: EventView)
    requires
        state.well_formed(),
        state.accepts(event),
    ensures
        ({
            let step = Step {
                before: state,
                event,
                after: state.next(event).0,
                action: state.next(event).1,
            };
            &&& reports_quota(step) <==> finds_quota_spent(step)
            &&& reports_failure(step) <==> finds_auth_failure(step)
            &&& reports_success(step) <==> finds_success(step)
            &&& reports_quota(step) ==> step.action == (ActionView::ReportQuotaExhausted {
                credential: state.phase->ReadingBody_credential,
            })
            &&& reports_failure(step) ==> step.action == (ActionView::ReportFailure {
                credential: state.phase->ReadingBody_credential,
            })
            &&& reports_success(step) ==> step.action == (ActionView::Succeed {
                credential: state.phase->Sending_credential,
            })
            &&& event is SendFailed ==> !reports(step)
            &&& event is AcquireFailed ==> !reports(step)
            &&& verdict(step) is Some && !verdict(step)->0.blames_credential() ==> !reports(
                step,
            )
        }),
{
}

/// Two counts over the same steps agree where what they count agrees on
/// each step.
pub proof fn lemma_count_agrees(
    taken: Seq<Step>,
    left: spec_fn(Step) -> bool,
    right: spec_fn(Step) -> bool,
)
    requires
        forall|i: int| 0 <= i < taken.len() ==> left(#[trigger] taken[i]) == right(taken[i]),
    ensures
        count(taken, left) == count(taken, right),
    decreases taken.len(),
{
    if taken.len() > 0 {
        assert(taken.first() == taken[0]);
        assert forall|i: int| 0 <= i < taken.drop_first().len() implies left(
            #[trigger] taken.drop_first()[i],
        ) == right(taken.drop_first()[i]) by {
            assert(taken.drop_first()[i] == taken[i + 1]);
        }
        lemma_count_agrees(taken.drop_first(), left, right);
    }
}

/// Over a whole call, the pool gets as many reports of a spent quota as
/// attempts were classified so, as many reports of an authentication
/// failure as attempts met status 401 or 403, and as many reports of a
/// success as attempts met a success.
pub proof fn lemma_one_report_per_verdict(state: DispatchView, events: Seq<EventView>)
    requires
        state.well_formed(),
    ensures
        count(steps(state, events), |step: Step| reports_quota(step)) == count(
            steps(state, events),
            |step: Step| finds_quota_spent(step),
        ),
        count(steps(state, events), |step: Step| reports_failure(step)) == count(
            steps(state, events),
            |step: Step| finds_auth_failure(step),
        ),
        count(steps(state, events), |step: Step| reports_success(step)) == count(
            steps(state, events),
            |step: Step| finds_success(step),
        ),
{
    let taken = steps(state, events);
    assert forall|i: int| 0 <= i < taken.len() implies {
        &&& reports_quota(#[trigger] taken[i]) == finds_quota_spent(taken[i])
        &&& reports_failure(taken[i]) == finds_auth_failure(taken[i])
        &&& reports_success(taken[i]) == finds_success(taken[i])
    } by {
        lemma_steps_sound(state, events, i);
        lemma_reports_follow_verdict(taken[i].before, taken[i].event);
    }
    lemma_count_agrees(
        taken,
        |step: Step| reports_quota(step),
        |step: Step| finds_quota_spent(step),
    );
    lemma_count_agrees(
        taken,
        |step: Step| reports_failure(step),
        |step: Step| finds_auth_failure(step),
    );
    lemma_count_agrees(
        taken,
        |step: Step| reports_success(step),
        |step: Step| finds_success(step),
    );
}

/// An attempt learns the class of its answer at most once: of two steps of
/// a run that take a body, the later belongs to a later attempt.
pub proof fn lemma_one_verdict_per_attempt(
    state: DispatchView,
    events: Seq<EventView>,
    i: int,
    j: int,
)
    requires
        state.well_formed(),
        0 <= i < j < steps(state, events).len(),
        verdict(steps(state, events)[i]) is Some,
        verdict(steps(state, events)[j]) is Some,
    ensures
        steps(state, events)[i].before.attempt < steps(state, events)[j].before.attempt,
{
    lemma_steps_progress(state, events, i, j);
}

/// An attempt sends at most one request: of two steps of a run that send,
/// the later belongs to a later attempt.
pub proof fn lemma_one_send_per_attempt(
    state: DispatchView,
    events: Seq<EventView>,
    i: int,
    j: int,
)
    requires
        state.well_formed(),
        0 <= i < j < steps(state, events).len(),
        sends(steps(state, events)[i]),
        sends(steps(state, events)[j]),
    ensures
        steps(state, events)[i].before.attempt < steps(state, events)[j].before.attempt,
        steps(state, events)[j].before.attempt < state.max_retries,
{
    lemma_steps_progress(state, events, i, j);
    lemma_steps_sound(state, events, i);
    lemma_steps_sound(state, events, j);
}

/// A success ends the call at once: the step that takes a status from 200
/// to 299 reports the success of the credential that carried the request,
/// asks for no body to be read, and leaves a state that accepts no event.
pub proof fn lemma_success_ends_call(state: DispatchView, credential: u64, status: u16)
    requires
        state.well_formed(),
        state.phase == (PhaseView::Sending { credential }),
        is_success_status(status),
    ensures
        state.next(EventView::Responded { status }).1 == (ActionView::Succeed { credential }),
        state.next(EventView::Responded { status }).0.phase is Finished,
        forall|event: EventView|
            !(#[trigger] state.next(EventView::Responded { status }).0.accepts(event)),
{
}

/// The step that ends a call is its last, so a call reports at most one
/// success, and asks for no body after it.
pub proof fn lemma_end_is_last(state: DispatchView, events: Seq<EventView>, i: int)
    requires
        state.well_formed(),
        0 <= i < steps(state, events).len(),
        ends(steps(state, events)[i]),
    ensures
        i == steps(state, events).len() - 1,
        steps(state, events)[i].after.phase is Finished,
{
    lemma_steps_sound(state, events, i);
    if i + 1 < steps(state, events).len() {
        lemma_steps_sound(state, events, i + 1);
    }
}

/// A body is read only of an answer that was no success.
pub proof fn lemma_body_read_only_after_failure(state: DispatchView, event: EventView)
    requires
        state.well_formed(),
        state.accepts(event),
        state.next(event).1 is ReadBody,
    ensures
        state.phase is Sending,
        event is Responded,
        !is_success_status(event->Responded_status),
{
}

/// After an answer that blames the credential the next attempt follows
/// without a pause, and after a transport error or a transient answer it
/// follows a pause where an attempt is left.
pub proof fn lemma_pause_only_when_retrying(state: DispatchView, event: EventView)
    requires
        state.well_formed(),
        state.accepts(event),
    ensures
        state.next(event).1 is Sleep <==> state.has_more() && (event is SendFailed || (
        state.phase is ReadingBody && event is BodyRead && outcome_of(
            state.phase->ReadingBody_status,
            event->BodyRead_body,
        ).is_retried())),
{
}

/// An answer that refuses the request ends the call at once: after status
/// 400, or another status from 400 to 499 that blames no credential, the
/// call fails with that answer, whatever attempts are left.
pub proof fn lemma_refusal_ends_call(state: DispatchView, body: Seq<char>)
    requires
        state.well_formed(),
        state.phase is ReadingBody,
        outcome_of(state.phase->ReadingBody_status, body).is_terminal(),
    ensures
        state.next(EventView::BodyRead { body }).0.phase is Finished,
        state.next(EventView::BodyRead { body }).1 == (ActionView::Fail {
            error: DispatchErrorView::RequestRejected {
                endpoint: state.endpoint,
                status: state.phase->ReadingBody_status,
                body,
            },
        }),
{
}

/// The error that ends a call is the one that was recorded last, and a call
/// that fails has recorded one unless its budget was zero.
pub proof fn lemma_last_error_wins(state: DispatchView, event: EventView)
    requires
        state.well_formed(),
        state.accepts(event),
        state.next(event).1 is Fail,
    ensures
        state.next(event).0.last_error == Some(state.next(event).1->Fail_error),
        state.next(event).0.phase is Finished,
{
}

/// `error` as a call through `endpoint` words it.
pub open spec fn relabel_error(error: DispatchErrorView, endpoint: Endpoint) -> DispatchErrorView {
    match error {
        DispatchErrorView::RequestRejected { status, body, .. } => {
            DispatchErrorView::RequestRejected { endpoint, status, body }
        },
        DispatchErrorView::CredentialRejected { status, body, .. } => {
            DispatchErrorView::CredentialRejected { endpoint, status, body }
        },
        DispatchErrorView::AllCredentialsExhausted { status, body, .. } => {
            DispatchErrorView::AllCredentialsExhausted { endpoint, status, body }
        },
        DispatchErrorView::UpstreamUnavailable { status, body, .. } => {
            DispatchErrorView::UpstreamUnavailable { endpoint, status, body }
        },
        DispatchErrorView::RetriesExceeded { max_retries, .. } => {
            DispatchErrorView::RetriesExceeded { endpoint, max_retries }
        },
        other => other,
    }
}

/// `state` as a call through `endpoint` holds it.
pub open spec fn relabel_state(state: DispatchView, endpoint: Endpoint) -> DispatchView {
    DispatchView {
        endpoint,
        last_error: match state.last_error {
            Some(error) => Some(relabel_error(error, endpoint)),
            None => None,
        },
        ..state
    }
}

/// `action` as a call through `endpoint` asks for it.
pub open spec fn relabel_action(action: ActionView, endpoint: Endpoint) -> ActionView {
    match action {
        ActionView::Fail { error } => ActionView::Fail { error: relabel_error(error, endpoint) },
        other => other,
    }
}

/// The two entries of the assistant endpoint decide alike: a call through
/// one takes, on every event, the step of a call through the other, and
/// they differ in nothing but the label that their errors carry.
pub proof fn lemma_stream_is_a_label(
    config: ConfigView,
    total: nat,
    state: DispatchView,
    event: EventView,
    endpoint: Endpoint,
)
    requires
        state.endpoint != Endpoint::Mcp,
        endpoint != Endpoint::Mcp,
    ensures
        start_of(config, endpoint, total) == (
            relabel_state(start_of(config, state.endpoint, total).0, endpoint),
            relabel_action(start_of(config, state.endpoint, total).1, endpoint),
        ),
        relabel_state(state, endpoint).well_formed() == state.well_formed(),
        relabel_state(state, endpoint).accepts(event) == state.accepts(event),
        endpoint.header_set_of() == state.endpoint.header_set_of(),
        relabel_state(state, endpoint).next(event) == (
            relabel_state(state.next(event).0, endpoint),
            relabel_action(state.next(event).1, endpoint),
        ),
{
}

} // verus!

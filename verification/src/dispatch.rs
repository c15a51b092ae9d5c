//! The course of one call: which step follows each event of an attempt.
//!
//! The caller performs what an `Action` asks for and hands back what came of
//! it as an `Event`. Nothing here waits, sends or reads: a `Dispatch` only
//! decides.

use crate::classify::{Outcome, classify, is_success, is_success_status, outcome_of};
use crate::config::{CallContext, CallContextView, Config, ConfigView, base_url_of, enclose, mcp_url_of};
use crate::error::{DispatchError, DispatchErrorView, Endpoint};
use crate::headers::{HeaderError, build, header_error_of, is_built};
use crate::retry::{attempt_cap, is_retry_delay, max_attempts, retry_delay};
use reqwest::header::HeaderMap;
use vstd::prelude::*;

verus! {

/// What a call is waiting for.
#[derive(Clone, Copy, Debug, PartialEq, Eq, Structural)]
pub enum Phase {
    /// A lease for the current attempt.
    Acquiring,
    /// The status of the request that was sent.
    Sending,
    /// The body of an answer that was no success.
    ReadingBody,
    /// The word of the pool on whether a usable credential is left.
    Reporting,
    /// The end of the pause before the next attempt.
    Sleeping,
    /// Nothing: the call has ended.
    Finished,
}

/// What a call is waiting for, with what it keeps of the current attempt.
pub enum PhaseView {
    Acquiring,
    Sending { credential: u64 },
    ReadingBody { credential: u64, status: u16 },
    Reporting { credential: u64, status: u16, body: Seq<char> },
    Sleeping,
    Finished,
}

/// What came of the action that a call asked for.
pub enum Event {
    /// No lease could be had.
    AcquireFailed { message: String },
    /// A lease was granted.
    Acquired { context: CallContext },
    /// The transport failed before a status arrived.
    SendFailed { message: String },
    /// An answer arrived with this status. Its body is still unread.
    Responded { status: u16 },
    /// The body of the answer was read; it is empty where reading failed.
    BodyRead { body: String },
    /// The pool took the report and tells whether a usable credential is
    /// left.
    Reported { has_available: bool },
    /// The pause is over.
    Slept,
}

/// An `Event` as plain values.
pub enum EventView {
    AcquireFailed { message: Seq<char> },
    Acquired { context: CallContextView },
    SendFailed { message: Seq<char> },
    Responded { status: u16 },
    BodyRead { body: Seq<char> },
    Reported { has_available: bool },
    Slept,
}

impl View for Event {
    type V = EventView;

    open spec fn view(&self) -> EventView {
        match self {
            Event::AcquireFailed { message } => EventView::AcquireFailed { message: message@ },
            Event::Acquired { context } => EventView::Acquired { context: context@ },
            Event::SendFailed { message } => EventView::SendFailed { message: message@ },
            Event::Responded { status } => EventView::Responded { status: *status },
            Event::BodyRead { body } => EventView::BodyRead { body: body@ },
            Event::Reported { has_available } => EventView::Reported {
                has_available: *has_available,
            },
            Event::Slept => EventView::Slept,
        }
    }
}

/// What a call asks its caller to do next.
pub enum Action {
    /// Ask the pool for a lease.
    Acquire,
    /// Post the body of the call to `url` with `headers`, on behalf of
    /// `credential`.
    Send { credential: u64, url: String, headers: HeaderMap },
    /// Read the body of the answer as text.
    ReadBody,
    /// Report the success of `credential` to the pool and hand the answer
    /// to the caller as it is, its body unread.
    Succeed { credential: u64 },
    /// Report an authentication failure of `credential` to the pool.
    ReportFailure { credential: u64 },
    /// Report to the pool that the quota of `credential` is spent.
    ReportQuotaExhausted { credential: u64 },
    /// Wait for `millis` milliseconds.
    Sleep { millis: u64 },
    /// End the call with `error`.
    Fail { error: DispatchError },
}

/// An `Action` without what chance puts into it: the headers, which hold a
/// random identifier, and the length of a pause.
pub enum ActionView {
    Acquire,
    Send { credential: u64, url: Seq<char> },
    ReadBody,
    Succeed { credential: u64 },
    ReportFailure { credential: u64 },
    ReportQuotaExhausted { credential: u64 },
    Sleep,
    Fail { error: DispatchErrorView },
}

impl View for Action {
    type V = ActionView;

    open spec fn view(&self) -> ActionView {
        match self {
            Action::Acquire => ActionView::Acquire,
            Action::Send { credential, url, headers } => ActionView::Send {
                credential: *credential,
                url: url@,
            },
            Action::ReadBody => ActionView::ReadBody,
            Action::Succeed { credential } => ActionView::Succeed { credential: *credential },
            Action::ReportFailure { credential } => ActionView::ReportFailure {
                credential: *credential,
            },
            Action::ReportQuotaExhausted { credential } => ActionView::ReportQuotaExhausted {
                credential: *credential,
            },
            Action::Sleep { millis } => ActionView::Sleep,
            Action::Fail { error } => ActionView::Fail { error: error@ },
        }
    }
}

/// The state of a call as plain values.
pub struct DispatchView {
    /// The configuration that the call reads.
    pub config: ConfigView,
    /// The entry that the call was made through.
    pub endpoint: Endpoint,
    /// The attempt budget of the call.
    pub max_retries: nat,
    /// The number of the current attempt, counted from zero.
    pub attempt: nat,
    /// The error of the latest attempt that failed.
    pub last_error: Option<DispatchErrorView>,
    /// What the call is waiting for.
    pub phase: PhaseView,
}

impl DispatchView {
    /// What holds of every state that a call reaches: the budget is at most
    /// nine, a call that has not ended is within its budget, a call sleeps
    /// only before an attempt that is left, a body is read only of an
    /// answer that was no success, and a report is awaited only after an
    /// answer that blames the credential.
    pub open spec fn well_formed(self) -> bool {
        &&& self.max_retries <= 9
        &&& self.phase !is Finished ==> self.attempt < self.max_retries
        &&& self.phase is Sleeping ==> self.attempt + 1 < self.max_retries
        &&& match self.phase {
            PhaseView::ReadingBody { status, .. } => !is_success_status(status),
            PhaseView::Reporting { status, body, .. } => outcome_of(
                status,
                body,
            ).blames_credential(),
            _ => true,
        }
    }

    /// The address that the requests of the call go to.
    pub open spec fn url_of(self) -> Seq<char> {
        match self.endpoint {
            Endpoint::Mcp => mcp_url_of(self.config.region),
            _ => base_url_of(self.config.region),
        }
    }

    /// Whether `event` answers what the call is waiting for.
    pub open spec fn accepts(self, event: EventView) -> bool {
        match self.phase {
            PhaseView::Acquiring => event is AcquireFailed || event is Acquired,
            PhaseView::Sending { .. } => event is SendFailed || event is Responded,
            PhaseView::ReadingBody { .. } => event is BodyRead,
            PhaseView::Reporting { .. } => event is Reported,
            PhaseView::Sleeping => event is Slept,
            PhaseView::Finished => false,
        }
    }

    /// The state in the phase `phase`.
    pub open spec fn in_phase(self, phase: PhaseView) -> DispatchView {
        DispatchView { phase, ..self }
    }

    /// The state after the attempt failed with `error`.
    pub open spec fn failed_with(self, error: DispatchErrorView) -> DispatchView {
        DispatchView { last_error: Some(error), ..self }
    }

    /// The state at the start of the next attempt.
    pub open spec fn at_next_attempt(self) -> DispatchView {
        DispatchView { attempt: self.attempt + 1, phase: PhaseView::Acquiring, ..self }
    }

    /// Whether another attempt is left after the current one.
    pub open spec fn has_more(self) -> bool {
        self.attempt + 1 < self.max_retries
    }

    /// The attempt failed with `error` and the next one follows at once:
    /// with a new lease where an attempt is left, and else the call ends
    /// with `error`.
    pub open spec fn advance(self, error: DispatchErrorView) -> (DispatchView, ActionView) {
        if self.has_more() {
            (self.failed_with(error).at_next_attempt(), ActionView::Acquire)
        } else {
            (self.failed_with(error).in_phase(PhaseView::Finished), ActionView::Fail { error })
        }
    }

    /// The attempt failed with `error` and the next one follows after a
    /// pause: where an attempt is left the call sleeps, and else it ends
    /// with `error`.
    pub open spec fn pause(self, error: DispatchErrorView) -> (DispatchView, ActionView) {
        if self.has_more() {
            (self.failed_with(error).in_phase(PhaseView::Sleeping), ActionView::Sleep)
        } else {
            (self.failed_with(error).in_phase(PhaseView::Finished), ActionView::Fail { error })
        }
    }

    /// The step on a granted lease: the request is sent where headers can
    /// be built for the lease, and else the attempt has failed.
    pub open spec fn on_lease(self, context: CallContextView) -> (DispatchView, ActionView) {
        match header_error_of(self.config, context) {
            Some(cause) => self.advance(DispatchErrorView::HeaderBuildFailure { cause }),
            None => (
                self.in_phase(PhaseView::Sending { credential: context.id }),
                ActionView::Send { credential: context.id, url: self.url_of() },
            ),
        }
    }

    /// The step on the status of an answer: a success ends the call, and of
    /// any other answer the body is read.
    pub open spec fn on_status(self, credential: u64, status: u16) -> (DispatchView, ActionView) {
        if is_success_status(status) {
            (self.in_phase(PhaseView::Finished), ActionView::Succeed { credential })
        } else {
            (
                self.in_phase(PhaseView::ReadingBody { credential, status }),
                ActionView::ReadBody,
            )
        }
    }

    /// The step on the body of an answer that was no success, by the class
    /// of the answer.
    pub open spec fn on_body(self, credential: u64, status: u16, body: Seq<char>) -> (
        DispatchView,
        ActionView,
    ) {
        let endpoint = self.endpoint;
        match outcome_of(status, body) {
            Outcome::QuotaExhausted => (
                self.in_phase(PhaseView::Reporting { credential, status, body }),
                ActionView::ReportQuotaExhausted { credential },
            ),
            Outcome::AuthFailure => (
                self.in_phase(PhaseView::Reporting { credential, status, body }),
                ActionView::ReportFailure { credential },
            ),
            Outcome::BadRequest | Outcome::OtherClient => {
                let error = DispatchErrorView::RequestRejected { endpoint, status, body };
                (self.failed_with(error).in_phase(PhaseView::Finished), ActionView::Fail { error })
            },
            _ => self.pause(DispatchErrorView::UpstreamUnavailable { endpoint, status, body }),
        }
    }

    /// The step on the word of the pool: with no usable credential left the
    /// call ends, and else the next attempt follows at once.
    pub open spec fn on_report(self, status: u16, body: Seq<char>, has_available: bool) -> (
        DispatchView,
        ActionView,
    ) {
        let endpoint = self.endpoint;
        if has_available {
            self.advance(DispatchErrorView::CredentialRejected { endpoint, status, body })
        } else {
            let error = DispatchErrorView::AllCredentialsExhausted { endpoint, status, body };
            (self.failed_with(error).in_phase(PhaseView::Finished), ActionView::Fail { error })
        }
    }

    /// The state that follows `event`, and the action that the call asks
    /// for. It is meant for an event that the state accepts; on any other
    /// the state stays and the action says nothing.
    pub open spec fn next(self, event: EventView) -> (DispatchView, ActionView) {
        match (self.phase, event) {
            (PhaseView::Acquiring, EventView::AcquireFailed { message }) => self.advance(
                DispatchErrorView::AcquireFailure { message },
            ),
            (PhaseView::Acquiring, EventView::Acquired { context }) => self.on_lease(context),
            (PhaseView::Sending { .. }, EventView::SendFailed { message }) => self.pause(
                DispatchErrorView::NetworkFailure { message },
            ),
            (PhaseView::Sending { credential }, EventView::Responded { status }) => self.on_status(
                credential,
                status,
            ),
            (PhaseView::ReadingBody { credential, status }, EventView::BodyRead { body }) => {
                self.on_body(credential, status, body)
            },
            (
                PhaseView::Reporting { status, body, .. },
                EventView::Reported { has_available },
            ) => self.on_report(status, body, has_available),
            (PhaseView::Sleeping, EventView::Slept) => (
                self.at_next_attempt(),
                ActionView::Acquire,
            ),
            _ => (self, ActionView::Acquire),
        }
    }
}

/// The state in which a call over `total` credentials begins, and its first
/// action: a lease is asked for, unless the budget is zero, in which case
/// the call ends at once.
pub open spec fn start_of(config: ConfigView, endpoint: Endpoint, total: nat) -> (
    DispatchView,
    ActionView,
) {
    let begun = DispatchView {
        config,
        endpoint,
        max_retries: attempt_cap(total),
        attempt: 0,
        last_error: None,
        phase: PhaseView::Acquiring,
    };
    if attempt_cap(total) == 0 {
        (
            begun.in_phase(PhaseView::Finished),
            ActionView::Fail {
                error: DispatchErrorView::RetriesExceeded { endpoint, max_retries: 0 },
            },
        )
    } else {
        (begun, ActionView::Acquire)
    }
}

/// The state of one call.
pub struct Dispatch {
    config: Config,
    endpoint: Endpoint,
    max_retries: usize,
    attempt: usize,
    last_error: Option<DispatchError>,
    phase: Phase,
    // The credential of the current attempt, from `Sending` on.
    credential: u64,
    // The status of the answer, from `ReadingBody` on.
    status: u16,
    // The body of the answer, in `Reporting`.
    body: String,
}

impl View for Dispatch {
    type V = DispatchView;

    closed spec fn view(&self) -> DispatchView {
        DispatchView {
            config: self.config@,
            endpoint: self.endpoint,
            max_retries: self.max_retries as nat,
            attempt: self.attempt as nat,
            last_error: match self.last_error {
                Some(error) => Some(error@),
                None => None,
            },
            phase: match self.phase {
                Phase::Acquiring => PhaseView::Acquiring,
                Phase::Sending => PhaseView::Sending { credential: self.credential },
                Phase::ReadingBody => PhaseView::ReadingBody {
                    credential: self.credential,
                    status: self.status,
                },
                Phase::Reporting => PhaseView::Reporting {
                    credential: self.credential,
                    status: self.status,
                    body: self.body@,
                },
                Phase::Sleeping => PhaseView::Sleeping,
                Phase::Finished => PhaseView::Finished,
            },
        }
    }
}

impl Dispatch {
    #[verifier::type_invariant]
    spec fn inv(self) -> bool {
        self@.well_formed()
    }

    /// Begins a call through `endpoint` over a pool of `total_credentials`.
    pub fn start(config: Config, endpoint: Endpoint, total_credentials: usize) -> (begun: (
        Dispatch,
        Action,
    ))
        ensures
            (begun.0@, begun.1@) == start_of(config@, endpoint, total_credentials as nat),
            begun.0@.well_formed(),
    {
        let max_retries: usize = max_attempts(total_credentials);
        if max_retries == 0 {
            let dispatch = Dispatch {
                config,
                endpoint,
                max_retries,
                attempt: 0,
                last_error: None,
                phase: Phase::Finished,
                credential: 0,
                status: 0,
                body: String::new(),
            };
            (
                dispatch,
                Action::Fail { error: DispatchError::RetriesExceeded { endpoint, max_retries } },
            )
        } else {
            let dispatch = Dispatch {
                config,
                endpoint,
                max_retries,
                attempt: 0,
                last_error: None,
                phase: Phase::Acquiring,
                credential: 0,
                status: 0,
                body: String::new(),
            };
            (dispatch, Action::Acquire)
        }
    }

    /// The number of the current attempt, counted from zero.
    pub fn attempt(&self) -> (attempt: usize)
        ensures
            attempt == self@.attempt,
    {
        self.attempt
    }

    /// The attempt budget of the call.
    pub fn max_retries(&self) -> (max_retries: usize)
        ensures
            max_retries == self@.max_retries,
            max_retries <= 9,
    {
        proof {
            use_type_invariant(self);
        }
        self.max_retries
    }

    /// The entry that the call was made through.
    pub fn endpoint(&self) -> (endpoint: Endpoint)
        ensures
            endpoint == self@.endpoint,
    {
        self.endpoint
    }

    /// Whether the call has ended.
    pub fn is_finished(&self) -> (finished: bool)
        ensures
            finished == (self@.phase is Finished),
    {
        self.phase == Phase::Finished
    }

    /// Writes the address that the requests of the call go to.
    pub fn url(&self) -> (url: String)
        ensures
            url@ == self@.url_of(),
    {
        match self.endpoint {
            Endpoint::Mcp => enclose(
                "https://q.",
                self.config.region.as_str(),
                ".amazonaws.com/mcp",
            ),
            _ => enclose(
                "https://q.",
                self.config.region.as_str(),
                ".amazonaws.com/generateAssistantResponse",
            ),
        }
    }

    /// Ends the call with `error`.
    fn fail(self, error: DispatchError) -> (stepped: (Dispatch, Action))
        requires
            self@.well_formed(),
        ensures
            stepped.0@ == self@.failed_with(error@).in_phase(PhaseView::Finished),
            stepped.1@ == (ActionView::Fail { error: error@ }),
            stepped.0@.well_formed(),
    {
        let shown = error.duplicate();
        let dispatch = Dispatch {
            config: self.config,
            endpoint: self.endpoint,
            max_retries: self.max_retries,
            attempt: self.attempt,
            last_error: Some(error),
            phase: Phase::Finished,
            credential: self.credential,
            status: self.status,
            body: self.body,
        };
        (dispatch, Action::Fail { error: shown })
    }

    /// Records `error` and goes on to the next attempt at once.
    fn advance(self, error: DispatchError) -> (stepped: (Dispatch, Action))
        requires
            self@.well_formed(),
            self@.phase !is Finished,
        ensures
            (stepped.0@, stepped.1@) == self@.advance(error@),
            stepped.0@.well_formed(),
    {
        if self.attempt + 1 < self.max_retries {
            let dispatch = Dispatch {
                config: self.config,
                endpoint: self.endpoint,
                max_retries: self.max_retries,
                attempt: self.attempt + 1,
                last_error: Some(error),
                phase: Phase::Acquiring,
                credential: self.credential,
                status: self.status,
                body: self.body,
            };
            (dispatch, Action::Acquire)
        } else {
            self.fail(error)
        }
    }

    /// Records `error` and goes on to the next attempt after a pause.
    fn pause(self, error: DispatchError) -> (stepped: (Dispatch, Action))
        requires
            self@.well_formed(),
            self@.phase !is Finished,
        ensures
            (stepped.0@, stepped.1@) == self@.pause(error@),
            stepped.0@.well_formed(),
            stepped.1 matches Action::Sleep { millis } ==> is_retry_delay(
                self@.attempt,
                millis as nat,
            ),
    {
        if self.attempt + 1 < self.max_retries {
            let millis: u64 = retry_delay(self.attempt);
            let dispatch = Dispatch {
                config: self.config,
                endpoint: self.endpoint,
                max_retries: self.max_retries,
                attempt: self.attempt,
                last_error: Some(error),
                phase: Phase::Sleeping,
                credential: self.credential,
                status: self.status,
                body: self.body,
            };
            (dispatch, Action::Sleep { millis })
        } else {
            self.fail(error)
        }
    }

    /// Moves to `phase`, keeping `credential`, `status` and `body` for it.
    fn enter(self, phase: Phase, credential: u64, status: u16, body: String) -> (moved: Dispatch)
        requires
            self@.well_formed(),
            self@.phase !is Finished,
            phase != Phase::Sleeping,
            phase == Phase::ReadingBody ==> !is_success_status(status),
            phase == Phase::Reporting ==> outcome_of(status, body@).blames_credential(),
        ensures
            moved@ == self@.in_phase(
                match phase {
                    Phase::Acquiring => PhaseView::Acquiring,
                    Phase::Sending => PhaseView::Sending { credential },
                    Phase::ReadingBody => PhaseView::ReadingBody { credential, status },
                    Phase::Reporting => PhaseView::Reporting { credential, status, body: body@ },
                    Phase::Sleeping => PhaseView::Sleeping,
                    Phase::Finished => PhaseView::Finished,
                },
            ),
            moved@.well_formed(),
    {
        Dispatch {
            config: self.config,
            endpoint: self.endpoint,
            max_retries: self.max_retries,
            attempt: self.attempt,
            last_error: self.last_error,
            phase,
            credential,
            status,
            body,
        }
    }

    /// Takes a granted lease: builds the headers and asks for the request
    /// to be sent, or gives the attempt up where no headers can be built.
    fn on_lease(self, context: CallContext) -> (stepped: (Dispatch, Action))
        requires
            self@.well_formed(),
            self@.phase is Acquiring,
        ensures
            (stepped.0@, stepped.1@) == self@.on_lease(context@),
            stepped.0@.well_formed(),
            stepped.1 matches Action::Send { headers, .. } ==> is_built(
                self@.endpoint.header_set_of(),
                self@.config,
                context@,
                Ok(headers),
            ),
    {
        match build(&self.config, &context, self.endpoint.header_set()) {
            Ok(headers) => {
                let url = self.url();
                let credential: u64 = context.id;
                let dispatch = self.enter(Phase::Sending, credential, 0, String::new());
                (dispatch, Action::Send { credential, url, headers })
            },
            Err(cause) => self.advance(DispatchError::HeaderBuildFailure { cause }),
        }
    }

    /// Takes the status of an answer.
    fn on_status(self, status: u16) -> (stepped: (Dispatch, Action))
        requires
            self@.well_formed(),
            self@.phase is Sending,
        ensures
            (stepped.0@, stepped.1@) == self@.on_status(self@.phase->Sending_credential, status),
            stepped.0@.well_formed(),
    {
        let credential: u64 = self.credential;
        if is_success(status) {
            let dispatch = self.enter(Phase::Finished, credential, status, String::new());
            (dispatch, Action::Succeed { credential })
        } else {
            let dispatch = self.enter(Phase::ReadingBody, credential, status, String::new());
            (dispatch, Action::ReadBody)
        }
    }

    /// Takes the body of an answer that was no success.
    fn on_body(self, body: String) -> (stepped: (Dispatch, Action))
        requires
            self@.well_formed(),
            self@.phase is ReadingBody,
        ensures
            (stepped.0@, stepped.1@) == self@.on_body(
                self@.phase->ReadingBody_credential,
                self@.phase->ReadingBody_status,
                body@,
            ),
            stepped.0@.well_formed(),
            stepped.1 matches Action::Sleep { millis } ==> is_retry_delay(
                self@.attempt,
                millis as nat,
            ),
    {
        let credential: u64 = self.credential;
        let status: u16 = self.status;
        let endpoint = self.endpoint;
        match classify(status, body.as_str()) {
            Outcome::QuotaExhausted => {
                let dispatch = self.enter(Phase::Reporting, credential, status, body);
                (dispatch, Action::ReportQuotaExhausted { credential })
            },
            Outcome::AuthFailure => {
                let dispatch = self.enter(Phase::Reporting, credential, status, body);
                (dispatch, Action::ReportFailure { credential })
            },
            Outcome::BadRequest => self.fail(
                DispatchError::RequestRejected { endpoint, status, body },
            ),
            Outcome::OtherClient => self.fail(
                DispatchError::RequestRejected { endpoint, status, body },
            ),
            _ => self.pause(DispatchError::UpstreamUnavailable { endpoint, status, body }),
        }
    }

    /// Takes the word of the pool on whether a usable credential is left.
    fn on_report(self, has_available: bool) -> (stepped: (Dispatch, Action))
        requires
            self@.well_formed(),
            self@.phase is Reporting,
        ensures
            (stepped.0@, stepped.1@) == self@.on_report(
                self@.phase->Reporting_status,
                self@.phase->Reporting_body,
                has_available,
            ),
            stepped.0@.well_formed(),
    {
        let endpoint = self.endpoint;
        let status: u16 = self.status;
        let body = self.body.clone();
        if has_available {
            self.advance(DispatchError::CredentialRejected { endpoint, status, body })
        } else {
            self.fail(DispatchError::AllCredentialsExhausted { endpoint, status, body })
        }
    }

    /// Begins the next attempt after a pause.
    fn on_slept(self) -> (stepped: (Dispatch, Action))
        requires
            self@.well_formed(),
            self@.phase is Sleeping,
        ensures
            stepped.0@ == self@.at_next_attempt(),
            stepped.1@ == ActionView::Acquire,
            stepped.0@.well_formed(),
    {
        let dispatch = Dispatch {
            config: self.config,
            endpoint: self.endpoint,
            max_retries: self.max_retries,
            attempt: self.attempt + 1,
            last_error: self.last_error,
            phase: Phase::Acquiring,
            credential: self.credential,
            status: self.status,
            body: self.body,
        };
        (dispatch, Action::Acquire)
    }

    /// Takes what came of the last action and decides what follows. An
    /// event that does not answer the last action changes nothing and gets
    /// no action.
    pub fn step(self, event: Event) -> (stepped: (Dispatch, Option<Action>))
        ensures
            stepped.0@.well_formed(),
            match stepped.1 {
                Some(action) => self@.accepts(event@) && (stepped.0@, action@) == self@.next(
                    event@,
                ),
                None => !self@.accepts(event@) && stepped.0@ == self@,
            },
            stepped.1 matches Some(Action::Sleep { millis }) ==> is_retry_delay(
                self@.attempt,
                millis as nat,
            ),
            stepped.1 matches Some(Action::Send { headers, .. }) ==> event@ is Acquired
                && is_built(
                self@.endpoint.header_set_of(),
                self@.config,
                event@->Acquired_context,
                Ok(headers),
            ),
    {
        proof {
            use_type_invariant(&self);
        }
        match event {
            Event::AcquireFailed { message } => {
                if self.phase == Phase::Acquiring {
                    let (dispatch, action) = self.advance(
                        DispatchError::AcquireFailure { message },
                    );
                    (dispatch, Some(action))
                } else {
                    (self, None)
                }
            },
            Event::Acquired { context } => {
                if self.phase == Phase::Acquiring {
                    let (dispatch, action) = self.on_lease(context);
                    (dispatch, Some(action))
                } else {
                    (self, None)
                }
            },
            Event::SendFailed { message } => {
                if self.phase == Phase::Sending {
                    let (dispatch, action) = self.pause(DispatchError::NetworkFailure { message });
                    (dispatch, Some(action))
                } else {
                    (self, None)
                }
            },
            Event::Responded { status } => {
                if self.phase == Phase::Sending {
                    let (dispatch, action) = self.on_status(status);
                    (dispatch, Some(action))
                } else {
                    (self, None)
                }
            },
            Event::BodyRead { body } => {
                if self.phase == Phase::ReadingBody {
                    let (dispatch, action) = self.on_body(body);
                    (dispatch, Some(action))
                } else {
                    (self, None)
                }
            },
            Event::Reported { has_available } => {
                if self.phase == Phase::Reporting {
                    let (dispatch, action) = self.on_report(has_available);
                    (dispatch, Some(action))
                } else {
                    (self, None)
                }
            },
            Event::Slept => {
                if self.phase == Phase::Sleeping {
                    let (dispatch, action) = self.on_slept();
                    (dispatch, Some(action))
                } else {
                    (self, None)
                }
            },
        }
    }
}

} // verus!

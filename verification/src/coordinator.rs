//! The authorization coordinator: a state machine from what happened to what
//! to do next.
//!
//! The surrounding program performs each action (read the cache, open the
//! consent page, exchange a code, refresh, call the service) and reports the
//! result back as the next event.

use crate::token::{grants, has_scope, Token};
use vstd::prelude::*;

verus! {

/// Seconds that the coordinator waits for a code after the consent page was
/// presented, before it gives authorization up.
pub const CODE_WAIT_SECS: u64 = 300;

/// Where the coordinator stands.
#[derive(Clone, Copy, Debug, PartialEq, Eq, Structural)]
pub enum Phase {
    /// Nothing has been done yet.
    Uninitialized,
    /// The token cache is being read.
    CheckingCache,
    /// The consent page was presented; a code is awaited.
    AwaitingCode,
    /// A code is being exchanged for a token.
    Exchanging,
    /// A token is held and no request is in flight.
    Authorized,
    /// A request to the service is in flight.
    Calling,
    /// A silent refresh is in flight.
    Refreshing,
    /// Authorization failed for good.
    Failed,
}

/// Why authorization failed for good.
#[derive(Clone, Copy, Debug, PartialEq, Eq, Structural)]
pub enum FatalReason {
    /// No code arrived within the bounded wait.
    CodeTimedOut,
    /// The token endpoint refused the code.
    ExchangeFailed,
    /// The token endpoint granted less than what is required.
    InsufficientScope,
    /// The token endpoint gave a token that has already expired.
    ExpiredToken,
}

/// What the surrounding program reports to the coordinator.
#[derive(Clone, Debug, PartialEq, Eq)]
pub enum AuthEvent {
    /// The callback listener is ready; authorization may begin.
    Start,
    /// The cache was read at time `now` and held this token, if any.
    CacheRead { token: Option<Token>, now: u64 },
    /// A code arrived from the callback listener.
    CodeReceived(String),
    /// The bounded wait for a code ran out.
    CodeTimedOut,
    /// The code was exchanged for this token, at time `now`.
    ExchangeSucceeded { token: Token, now: u64 },
    /// The code could not be exchanged.
    ExchangeFailed,
    /// The polling loop asks for what is playing, at time `now`.
    PollRequested { now: u64 },
    /// The request to the service succeeded.
    CallSucceeded,
    /// The service answered that the token is not, or no longer, valid.
    CallUnauthorized,
    /// The request failed for another reason.
    CallFailed,
    /// The silent refresh gave this token, at time `now`.
    RefreshSucceeded { token: Token, now: u64 },
    /// The silent refresh failed.
    RefreshFailed,
}

impl AuthEvent {
    /// The time that an event carries, if it carries one.
    pub open spec fn time(self) -> Option<u64> {
        match self {
            AuthEvent::CacheRead { token, now } => Some(now),
            AuthEvent::ExchangeSucceeded { token, now } => Some(now),
            AuthEvent::PollRequested { now } => Some(now),
            AuthEvent::RefreshSucceeded { token, now } => Some(now),
            _ => None,
        }
    }
}

/// What the coordinator asks the surrounding program to do.
#[derive(Clone, Debug, PartialEq, Eq)]
pub enum AuthAction {
    /// Read the token cache and report `CacheRead`.
    ReadTokenCache,
    /// Present the consent page, then wait for a code.
    OpenAuthorizeUrl,
    /// Exchange this code for a token.
    ExchangeCode(String),
    /// Authorization is complete: the polling loop may start.
    StartPolling,
    /// Send the request to the service.
    CallApi,
    /// Refresh the token silently.
    RefreshToken,
    /// Hand the answer of the last request to the display.
    DeliverResult,
    /// Tell the display that the status could not be retrieved.
    ReportPollError,
    /// Report that authorization failed and stop.
    ReportFatal(FatalReason),
    /// Nothing to do: the event does not belong to the current phase.
    Ignore,
}

/// The kind of an action, without what it carries.
#[derive(Clone, Copy, Debug, PartialEq, Eq, Structural)]
pub enum ActionKind {
    ReadTokenCache,
    OpenAuthorizeUrl,
    ExchangeCode,
    StartPolling,
    CallApi,
    RefreshToken,
    DeliverResult,
    ReportPollError,
    ReportFatal,
    Ignore,
}

impl AuthAction {
    /// The kind of this action.
    pub open spec fn kind_of(self) -> ActionKind {
        match self {
            AuthAction::ReadTokenCache => ActionKind::ReadTokenCache,
            AuthAction::OpenAuthorizeUrl => ActionKind::OpenAuthorizeUrl,
            AuthAction::ExchangeCode(_) => ActionKind::ExchangeCode,
            AuthAction::StartPolling => ActionKind::StartPolling,
            AuthAction::CallApi => ActionKind::CallApi,
            AuthAction::RefreshToken => ActionKind::RefreshToken,
            AuthAction::DeliverResult => ActionKind::DeliverResult,
            AuthAction::ReportPollError => ActionKind::ReportPollError,
            AuthAction::ReportFatal(_) => ActionKind::ReportFatal,
            AuthAction::Ignore => ActionKind::Ignore,
        }
    }

    /// The kind of this action.
    pub fn kind(&self) -> (kind: ActionKind)
        ensures
            kind == self.kind_of(),
    {
        match self {
            AuthAction::ReadTokenCache => ActionKind::ReadTokenCache,
            AuthAction::OpenAuthorizeUrl => ActionKind::OpenAuthorizeUrl,
            AuthAction::ExchangeCode(_) => ActionKind::ExchangeCode,
            AuthAction::StartPolling => ActionKind::StartPolling,
            AuthAction::CallApi => ActionKind::CallApi,
            AuthAction::RefreshToken => ActionKind::RefreshToken,
            AuthAction::DeliverResult => ActionKind::DeliverResult,
            AuthAction::ReportPollError => ActionKind::ReportPollError,
            AuthAction::ReportFatal(_) => ActionKind::ReportFatal,
            AuthAction::Ignore => ActionKind::Ignore,
        }
    }
}

/// The coordinator's state. It alone holds and replaces the token.
#[derive(Clone, Debug, PartialEq, Eq)]
pub struct Coordinator {
    pub phase: Phase,
    /// The scopes that every request needs.
    pub required: Vec<String>,
    /// The token in use, if any.
    pub token: Option<Token>,
    /// Whether a request of the polling loop awaits its answer.
    pub pending_poll: bool,
    /// Whether the pending request has used up its one recovery.
    pub recovered: bool,
    /// Every code that was handed to an exchange, oldest first. A code is
    /// single-use: one that stands here is never exchanged again.
    pub exchanged: Vec<String>,
}

/// The coordinator as the contracts see it.
pub struct CoordinatorView {
    pub phase: Phase,
    pub required: Seq<String>,
    pub token: Option<Token>,
    pub pending_poll: bool,
    pub recovered: bool,
    pub exchanged: Seq<String>,
}

impl View for Coordinator {
    type V = CoordinatorView;

    open spec fn view(&self) -> CoordinatorView {
        CoordinatorView {
            phase: self.phase,
            required: self.required@,
            token: self.token,
            pending_poll: self.pending_poll,
            recovered: self.recovered,
            exchanged: self.exchanged@,
        }
    }
}

impl CoordinatorView {
    /// Whether the coordinator holds a token that grants what is required.
    pub open spec fn holds_sufficient_token(self) -> bool {
        self.token is Some && self.token.unwrap().sufficient(self.required)
    }

    /// Whether `code` was handed to an exchange before.
    pub open spec fn was_exchanged(self, code: Seq<char>) -> bool {
        grants(self.exchanged, code)
    }

    /// The coordinator's invariant: a phase that can send requests holds a
    /// sufficient token; a request is pending exactly while the phase works
    /// on one; and a recovery under way is recorded as used.
    pub open spec fn wf(self) -> bool {
        &&& (self.phase == Phase::Authorized || self.phase == Phase::Calling || self.phase
            == Phase::Refreshing) ==> self.holds_sufficient_token()
        &&& (self.phase == Phase::Calling || self.phase == Phase::Refreshing)
            ==> self.pending_poll
        &&& (self.phase == Phase::Uninitialized || self.phase == Phase::CheckingCache
            || self.phase == Phase::Authorized) ==> !self.pending_poll
        &&& self.phase == Phase::Refreshing ==> self.recovered
        &&& ((self.phase == Phase::AwaitingCode || self.phase == Phase::Exchanging)
            && self.pending_poll) ==> self.recovered
    }

    /// The coordinator after `event`, and the action it asks for.
    pub open spec fn next(self, event: AuthEvent) -> (CoordinatorView, AuthAction) {
        match (self.phase, event) {
            (Phase::Uninitialized, AuthEvent::Start) => (
                CoordinatorView { phase: Phase::CheckingCache, ..self },
                AuthAction::ReadTokenCache,
            ),
            (Phase::CheckingCache, AuthEvent::CacheRead { token, now }) => {
                if token is Some && token.unwrap().usable(now, self.required) {
                    (
                        CoordinatorView { phase: Phase::Authorized, token: token, ..self },
                        AuthAction::StartPolling,
                    )
                } else {
                    (
                        CoordinatorView { phase: Phase::AwaitingCode, token: None, ..self },
                        AuthAction::OpenAuthorizeUrl,
                    )
                }
            },
            (Phase::AwaitingCode, AuthEvent::CodeReceived(code)) => {
                if self.was_exchanged(code@) {
                    (self, AuthAction::Ignore)
                } else {
                    (
                        CoordinatorView {
                            phase: Phase::Exchanging,
                            exchanged: self.exchanged.push(code),
                            ..self
                        },
                        AuthAction::ExchangeCode(code),
                    )
                }
            },
            (Phase::AwaitingCode, AuthEvent::CodeTimedOut) => (
                CoordinatorView { phase: Phase::Failed, ..self },
                AuthAction::ReportFatal(FatalReason::CodeTimedOut),
            ),
            (Phase::Exchanging, AuthEvent::ExchangeSucceeded { token, now }) => {
                if !token.sufficient(self.required) {
                    (
                        CoordinatorView { phase: Phase::Failed, token: None, ..self },
                        AuthAction::ReportFatal(FatalReason::InsufficientScope),
                    )
                } else if token.expired(now) {
                    (
                        CoordinatorView { phase: Phase::Failed, token: None, ..self },
                        AuthAction::ReportFatal(FatalReason::ExpiredToken),
                    )
                } else if self.pending_poll {
                    (
                        CoordinatorView { phase: Phase::Calling, token: Some(token), ..self },
                        AuthAction::CallApi,
                    )
                } else {
                    (
                        CoordinatorView { phase: Phase::Authorized, token: Some(token), ..self },
                        AuthAction::StartPolling,
                    )
                }
            },
            (Phase::Exchanging, AuthEvent::ExchangeFailed) => (
                CoordinatorView { phase: Phase::Failed, ..self },
                AuthAction::ReportFatal(FatalReason::ExchangeFailed),
            ),
            (Phase::Authorized, AuthEvent::PollRequested { now }) => {
                if self.token is Some && !self.token.unwrap().expired(now) {
                    (
                        CoordinatorView {
                            phase: Phase::Calling,
                            pending_poll: true,
                            recovered: false,
                            ..self
                        },
                        AuthAction::CallApi,
                    )
                } else {
                    (
                        CoordinatorView {
                            phase: Phase::Refreshing,
                            pending_poll: true,
                            recovered: true,
                            ..self
                        },
                        AuthAction::RefreshToken,
                    )
                }
            },
            (Phase::Calling, AuthEvent::CallSucceeded) => (
                CoordinatorView { phase: Phase::Authorized, pending_poll: false, ..self },
                AuthAction::DeliverResult,
            ),
            (Phase::Calling, AuthEvent::CallUnauthorized) => {
                if self.recovered {
                    (
                        CoordinatorView { phase: Phase::Authorized, pending_poll: false, ..self },
                        AuthAction::ReportPollError,
                    )
                } else {
                    (
                        CoordinatorView { phase: Phase::Refreshing, recovered: true, ..self },
                        AuthAction::RefreshToken,
                    )
                }
            },
            (Phase::Calling, AuthEvent::CallFailed) => (
                CoordinatorView { phase: Phase::Authorized, pending_poll: false, ..self },
                AuthAction::ReportPollError,
            ),
            (Phase::Refreshing, AuthEvent::RefreshSucceeded { token, now }) => {
                if token.usable(now, self.required) {
                    (
                        CoordinatorView { phase: Phase::Calling, token: Some(token), ..self },
                        AuthAction::CallApi,
                    )
                } else {
                    (
                        CoordinatorView { phase: Phase::AwaitingCode, token: None, ..self },
                        AuthAction::OpenAuthorizeUrl,
                    )
                }
            },
            (Phase::Refreshing, AuthEvent::RefreshFailed) => (
                CoordinatorView { phase: Phase::AwaitingCode, token: None, ..self },
                AuthAction::OpenAuthorizeUrl,
            ),
            _ => (self, AuthAction::Ignore),
        }
    }
}

impl Coordinator {
    /// A coordinator that has done nothing yet, for requests that need the
    /// scopes in `required`.
    pub fn new(required: Vec<String>) -> (c: Coordinator)
        ensures
            c@ == (CoordinatorView {
                phase: Phase::Uninitialized,
                required: required@,
                token: None,
                pending_poll: false,
                recovered: false,
                exchanged: Seq::empty(),
            }),
            c.required == required,
            c@.wf(),
    {
        Coordinator {
            phase: Phase::Uninitialized,
            required,
            token: None,
            pending_poll: false,
            recovered: false,
            exchanged: Vec::new(),
        }
    }

    /// Takes one event and answers with the action to perform. The invariant
    /// is kept; under it a request is only ever sent with a token that grants
    /// what is required; and a request is sent, and polling started, only
    /// with a token that has not expired at the time of the event. A code is
    /// exchanged only while one is awaited, and only if it was never
    /// exchanged before; it is then recorded.
    pub fn step(&mut self, event: AuthEvent) -> (action: AuthAction)
        ensures
            (final(self)@, action) == old(self)@.next(event),
            final(self).required == old(self).required,
            old(self)@.wf() ==> final(self)@.wf(),
            old(self)@.wf() && action is CallApi ==> final(self)@.holds_sufficient_token(),
            action is StartPolling ==> final(self).phase == Phase::Authorized,
            action is StartPolling ==> final(self)@.holds_sufficient_token(),
            action is ExchangeCode ==> !old(self)@.was_exchanged(action->ExchangeCode_0@)
                && final(self)@.was_exchanged(action->ExchangeCode_0@),
            action is CallApi || action is StartPolling ==> event.time() is Some,
            action is CallApi || action is StartPolling ==> final(self).token is Some,
            action is CallApi || action is StartPolling ==> !final(self).token.unwrap().expired(
                event.time().unwrap(),
            ),
    {
        match event {
            AuthEvent::Start => {
                if self.phase == Phase::Uninitialized {
                    self.phase = Phase::CheckingCache;
                    return AuthAction::ReadTokenCache;
                }
            },
            AuthEvent::CacheRead { token, now } => {
                if self.phase == Phase::CheckingCache {
                    let usable = match &token {
                        Some(found) => found.is_usable(now, &self.required),
                        None => false,
                    };
                    if usable {
                        self.phase = Phase::Authorized;
                        self.token = token;
                        return AuthAction::StartPolling;
                    }
                    self.phase = Phase::AwaitingCode;
                    self.token = None;
                    return AuthAction::OpenAuthorizeUrl;
                }
            },
            AuthEvent::CodeReceived(code) => {
                if self.phase == Phase::AwaitingCode && !has_scope(&self.exchanged, &code) {
                    self.phase = Phase::Exchanging;
                    self.exchanged.push(code.clone());
                    assert(final(self)@.exchanged[old(self)@.exchanged.len() as int] == code);
                    return AuthAction::ExchangeCode(code);
                }
            },
            AuthEvent::CodeTimedOut => {
                if self.phase == Phase::AwaitingCode {
                    self.phase = Phase::Failed;
                    return AuthAction::ReportFatal(FatalReason::CodeTimedOut);
                }
            },
            AuthEvent::ExchangeSucceeded { token, now } => {
                if self.phase == Phase::Exchanging {
                    if !token.has_scopes(&self.required) {
                        self.phase = Phase::Failed;
                        self.token = None;
                        return AuthAction::ReportFatal(FatalReason::InsufficientScope);
                    }
                    if token.is_expired(now) {
                        self.phase = Phase::Failed;
                        self.token = None;
                        return AuthAction::ReportFatal(FatalReason::ExpiredToken);
                    }
                    self.token = Some(token);
                    if self.pending_poll {
                        self.phase = Phase::Calling;
                        return AuthAction::CallApi;
                    }
                    self.phase = Phase::Authorized;
                    return AuthAction::StartPolling;
                }
            },
            AuthEvent::ExchangeFailed => {
                if self.phase == Phase::Exchanging {
                    self.phase = Phase::Failed;
                    return AuthAction::ReportFatal(FatalReason::ExchangeFailed);
                }
            },
            AuthEvent::PollRequested { now } => {
                if self.phase == Phase::Authorized {
                    let fresh = match &self.token {
                        Some(held) => !held.is_expired(now),
                        None => false,
                    };
                    self.pending_poll = true;
                    if fresh {
                        self.phase = Phase::Calling;
                        self.recovered = false;
                        return AuthAction::CallApi;
                    }
                    self.phase = Phase::Refreshing;
                    self.recovered = true;
                    return AuthAction::RefreshToken;
                }
            },
            AuthEvent::CallSucceeded => {
                if self.phase == Phase::Calling {
                    self.phase = Phase::Authorized;
                    self.pending_poll = false;
                    return AuthAction::DeliverResult;
                }
            },
            AuthEvent::CallUnauthorized => {
                if self.phase == Phase::Calling {
                    if self.recovered {
                        self.phase = Phase::Authorized;
                        self.pending_poll = false;
                        return AuthAction::ReportPollError;
                    }
                    self.phase = Phase::Refreshing;
                    self.recovered = true;
                    return AuthAction::RefreshToken;
                }
            },
            AuthEvent::CallFailed => {
                if self.phase == Phase::Calling {
                    self.phase = Phase::Authorized;
                    self.pending_poll = false;
                    return AuthAction::ReportPollError;
                }
            },
            AuthEvent::RefreshSucceeded { token, now } => {
                if self.phase == Phase::Refreshing {
                    if token.is_usable(now, &self.required) {
                        self.phase = Phase::Calling;
                        self.token = Some(token);
                        return AuthAction::CallApi;
                    }
                    self.phase = Phase::AwaitingCode;
                    self.token = None;
                    return AuthAction::OpenAuthorizeUrl;
                }
            },
            AuthEvent::RefreshFailed => {
                if self.phase == Phase::Refreshing {
                    self.phase = Phase::AwaitingCode;
                    self.token = None;
                    return AuthAction::OpenAuthorizeUrl;
                }
            },
        }
        AuthAction::Ignore
    }

    /// Whether authorization is complete and requests can be sent.
    pub fn is_authorized(&self) -> (yes: bool)
        ensures
            yes == (self.phase == Phase::Authorized || self.phase == Phase::Calling),
    {
        self.phase == Phase::Authorized || self.phase == Phase::Calling
    }

    /// Whether a code is awaited.
    pub fn is_awaiting_code(&self) -> (yes: bool)
        ensures
            yes == (self.phase == Phase::AwaitingCode),
    {
        self.phase == Phase::AwaitingCode
    }

    /// Whether authorization failed for good.
    pub fn is_failed(&self) -> (yes: bool)
        ensures
            yes == (self.phase == Phase::Failed),
    {
        self.phase == Phase::Failed
    }
}

} // verus!

//! What holds of the coordinator over whole sequences of events.

use crate::coordinator::{ActionKind, AuthAction, AuthEvent, CoordinatorView, Phase};
use crate::token::Token;
use vstd::prelude::*;

verus! {

/// The coordinator after all of `events`, taken in order.
pub open spec fn run(c: CoordinatorView, events: Seq<AuthEvent>) -> CoordinatorView
    decreases events.len(),
{
    if events.len() == 0 {
        c
    } else {
        run(c.next(events[0]).0, events.drop_first())
    }
}

/// How many actions of `kind` the coordinator asks for while it takes
/// `events` in order.
pub open spec fn tally(c: CoordinatorView, events: Seq<AuthEvent>, kind: ActionKind) -> nat
    decreases events.len(),
{
    if events.len() == 0 {
        0
    } else {
        let (after, action) = c.next(events[0]);
        let here: nat = if action.kind_of() == kind {
            1
        } else {
            0
        };
        here + tally(after, events.drop_first(), kind)
    }
}

/// Whether none of `events` is a new request of the polling loop.
pub open spec fn within_one_poll(events: Seq<AuthEvent>) -> bool {
    forall|i: int| 0 <= i < events.len() ==> !((#[trigger] events[i]) is PollRequested)
}

/// Whether every one of `events` is the arrival of a code.
pub open spec fn only_codes(events: Seq<AuthEvent>) -> bool {
    forall|i: int| 0 <= i < events.len() ==> (#[trigger] events[i]) is CodeReceived
}

/// How many consent pages the coordinator may still open before the next
/// request of the polling loop.
pub open spec fn sessions_left(c: CoordinatorView) -> nat {
    if c.phase == Phase::Uninitialized || c.phase == Phase::CheckingCache || c.phase
        == Phase::Refreshing || (c.phase == Phase::Calling && !c.recovered) {
        1
    } else {
        0
    }
}

/// Every step keeps the invariant.
pub proof fn lemma_next_keeps_wf(c: CoordinatorView, event: AuthEvent)
    requires
        c.wf(),
    ensures
        c.next(event).0.wf(),
        c.next(event).0.required == c.required,
{
}

/// Every run keeps the invariant.
pub proof fn lemma_run_keeps_wf(c: CoordinatorView, events: Seq<AuthEvent>)
    requires
        c.wf(),
    ensures
        run(c, events).wf(),
        run(c, events).required == c.required,
    decreases events.len(),
{
    if events.len() > 0 {
        lemma_next_keeps_wf(c, events[0]);
        lemma_run_keeps_wf(c.next(events[0]).0, events.drop_first());
    }
}

/// Whether none of `events` is the signal that the listener is ready.
pub open spec fn none_is_start(events: Seq<AuthEvent>) -> bool {
    forall|i: int| 0 <= i < events.len() ==> !((#[trigger] events[i]) is Start)
}

/// Until the listener has signalled that it is ready, the coordinator does
/// nothing at all: every event is ignored, so no consent page is opened.
pub proof fn lemma_nothing_happens_before_ready(c: CoordinatorView, events: Seq<AuthEvent>)
    requires
        c.phase == Phase::Uninitialized,
        none_is_start(events),
    ensures
        run(c, events) == c,
        tally(c, events, ActionKind::Ignore) == events.len(),
    decreases events.len(),
{
    if events.len() > 0 {
        let rest = events.drop_first();
        assert(!(events[0] is Start));
        assert forall|i: int| 0 <= i < rest.len() implies !((#[trigger] rest[i]) is Start) by {
            assert(rest[i] == events[i + 1]);
        }
        lemma_nothing_happens_before_ready(c, rest);
    }
}

/// The readiness signal is consumed once: the cache is read at most one
/// time, and only by a coordinator that had done nothing before.
pub proof fn lemma_ready_is_consumed_once(c: CoordinatorView, events: Seq<AuthEvent>)
    ensures
        tally(c, events, ActionKind::ReadTokenCache) <= (if c.phase == Phase::Uninitialized {
            1nat
        } else {
            0nat
        }),
    decreases events.len(),
{
    if events.len() > 0 {
        lemma_ready_is_consumed_once(c.next(events[0]).0, events.drop_first());
    }
}

/// A coordinator that failed stays failed, and asks for nothing more.
pub proof fn lemma_failed_is_terminal(c: CoordinatorView, events: Seq<AuthEvent>)
    requires
        c.phase == Phase::Failed,
    ensures
        run(c, events) == c,
        tally(c, events, ActionKind::Ignore) == events.len(),
    decreases events.len(),
{
    if events.len() > 0 {
        lemma_failed_is_terminal(c, events.drop_first());
    }
}

/// A code triggers an exchange exactly when one is awaited, and that
/// exchange is of the very code that arrived. In every other phase the code
/// is dropped and the coordinator stays as it is.
pub proof fn lemma_code_is_exchanged_only_when_awaited(c: CoordinatorView, code: String)
    ensures
        c.phase == Phase::AwaitingCode && !c.was_exchanged(code@) ==> c.next(
            AuthEvent::CodeReceived(code),
        ) == (
            CoordinatorView { phase: Phase::Exchanging, exchanged: c.exchanged.push(code), ..c },
            AuthAction::ExchangeCode(code),
        ),
        c.phase != Phase::AwaitingCode || c.was_exchanged(code@) ==> c.next(
            AuthEvent::CodeReceived(code),
        ) == (c, AuthAction::Ignore),
{
}

/// How often the coordinator asks for an exchange of `code` while it takes
/// `events` in order.
pub open spec fn exchanges_of(c: CoordinatorView, events: Seq<AuthEvent>, code: Seq<char>) -> nat
    decreases events.len(),
{
    if events.len() == 0 {
        0
    } else {
        let (after, action) = c.next(events[0]);
        let here: nat = if action is ExchangeCode && action->ExchangeCode_0@ == code {
            1
        } else {
            0
        };
        here + exchanges_of(after, events.drop_first(), code)
    }
}

/// The record of exchanged codes only grows, and holds every code that an
/// exchange was asked for.
pub proof fn lemma_exchanged_codes_are_recorded(
    c: CoordinatorView,
    event: AuthEvent,
    code: Seq<char>,
)
    ensures
        c.was_exchanged(code) ==> c.next(event).0.was_exchanged(code),
        c.next(event).1 is ExchangeCode ==> !c.was_exchanged(c.next(event).1->ExchangeCode_0@)
            && c.next(event).0.was_exchanged(c.next(event).1->ExchangeCode_0@),
{
    let (after, action) = c.next(event);
    if action is ExchangeCode {
        let taken = action->ExchangeCode_0;
        assert(after.exchanged == c.exchanged.push(taken));
        assert(after.exchanged[c.exchanged.len() as int] == taken);
        if c.was_exchanged(code) {
            let j = choose|j: int| 0 <= j < c.exchanged.len() && (#[trigger] c.exchanged[j])@ == code;
            assert(after.exchanged[j] == c.exchanged[j]);
        }
    } else {
        assert(after.exchanged == c.exchanged);
    }
}

/// A code is single-use over the whole life of the coordinator: over any
/// events whatever, across every authorization session, each code is handed
/// to at most one exchange, and to none if it was exchanged before. A code
/// that is delivered again, at once or sessions later, is dropped.
pub proof fn lemma_each_code_is_exchanged_at_most_once(
    c: CoordinatorView,
    events: Seq<AuthEvent>,
    code: Seq<char>,
)
    ensures
        exchanges_of(c, events, code) <= (if c.was_exchanged(code) {
            0nat
        } else {
            1nat
        }),
    decreases events.len(),
{
    if events.len() > 0 {
        lemma_exchanged_codes_are_recorded(c, events[0], code);
        lemma_each_code_is_exchanged_at_most_once(c.next(events[0]).0, events.drop_first(), code);
    }
}

/// However often a code is delivered again, one authorization session leads
/// to one exchange: a run of code arrivals that starts with a new code while
/// a code is awaited exchanges the first and drops the rest.
pub proof fn lemma_duplicate_codes_exchange_once(c: CoordinatorView, events: Seq<AuthEvent>)
    requires
        c.phase == Phase::AwaitingCode,
        events.len() >= 1,
        only_codes(events),
        !c.was_exchanged(events[0]->CodeReceived_0@),
    ensures
        tally(c, events, ActionKind::ExchangeCode) == 1,
        c.next(events[0]).1 == AuthAction::ExchangeCode(events[0]->CodeReceived_0),
        run(c, events).phase == Phase::Exchanging,
{
    let after = c.next(events[0]).0;
    assert(events[0] is CodeReceived);
    lemma_codes_are_dropped_elsewhere(after, events.drop_first());
}

/// Outside an authorization session, code arrivals change nothing and
/// trigger no exchange.
pub proof fn lemma_codes_are_dropped_elsewhere(c: CoordinatorView, events: Seq<AuthEvent>)
    requires
        c.phase != Phase::AwaitingCode,
        only_codes(events),
    ensures
        tally(c, events, ActionKind::ExchangeCode) == 0,
        run(c, events) == c,
    decreases events.len(),
{
    if events.len() > 0 {
        assert(events[0] is CodeReceived);
        let rest = events.drop_first();
        assert forall|i: int| 0 <= i < rest.len() implies (#[trigger] rest[i]) is CodeReceived by {
            assert(rest[i] == events[i + 1]);
        }
        lemma_codes_are_dropped_elsewhere(c, rest);
    }
}

/// Over any events whatever, the coordinator starts no more exchanges than
/// there are authorization sessions: the ones it opens, and the one it may
/// be in at the start.
pub proof fn lemma_one_exchange_per_session(c: CoordinatorView, events: Seq<AuthEvent>)
    ensures
        tally(c, events, ActionKind::ExchangeCode) <= tally(
            c,
            events,
            ActionKind::OpenAuthorizeUrl,
        ) + (if c.phase == Phase::AwaitingCode {
            1nat
        } else {
            0nat
        }),
    decreases events.len(),
{
    if events.len() > 0 {
        lemma_one_exchange_per_session(c.next(events[0]).0, events.drop_first());
    }
}

/// A cached token that has not expired and grants what is required makes the
/// coordinator authorized at once, and the consent page is not opened.
pub proof fn lemma_usable_cache_skips_browser(c: CoordinatorView, token: Token, now: u64)
    requires
        c.phase == Phase::CheckingCache,
        token.usable(now, c.required),
    ensures
        c.next(AuthEvent::CacheRead { token: Some(token), now }).1 == AuthAction::StartPolling,
        c.next(AuthEvent::CacheRead { token: Some(token), now }).0 == (CoordinatorView {
            phase: Phase::Authorized,
            token: Some(token),
            ..c
        }),
{
}

/// While the coordinator holds a token, the consent page is never opened
/// unless a silent refresh was asked for first: in any run from such a
/// state, an opened page implies an earlier refresh. (Applied to a prefix of
/// the run that ends with the page being opened, the refresh lies before
/// it.)
pub proof fn lemma_refresh_precedes_reauthorization(c: CoordinatorView, events: Seq<AuthEvent>)
    requires
        c.phase == Phase::Authorized || c.phase == Phase::Calling,
    ensures
        tally(c, events, ActionKind::OpenAuthorizeUrl) > 0 ==> tally(
            c,
            events,
            ActionKind::RefreshToken,
        ) > 0,
    decreases events.len(),
{
    if events.len() > 0 {
        let (after, action) = c.next(events[0]);
        if action.kind_of() != ActionKind::RefreshToken {
            lemma_refresh_precedes_reauthorization(after, events.drop_first());
        }
    }
}

/// From the moment the cache yields a usable token, the consent page is
/// opened only after a silent refresh was asked for.
pub proof fn lemma_usable_cache_never_opens_browser_unrefreshed(
    c: CoordinatorView,
    token: Token,
    now: u64,
    later: Seq<AuthEvent>,
)
    requires
        c.phase == Phase::CheckingCache,
        token.usable(now, c.required),
    ensures
        tally(
            c,
            seq![AuthEvent::CacheRead { token: Some(token), now }] + later,
            ActionKind::OpenAuthorizeUrl,
        ) > 0 ==> tally(
            c,
            seq![AuthEvent::CacheRead { token: Some(token), now }] + later,
            ActionKind::RefreshToken,
        ) > 0,
{
    let first = AuthEvent::CacheRead { token: Some(token), now };
    let all = seq![first] + later;
    assert(all[0] == first);
    assert(all.drop_first() =~= later);
    lemma_refresh_precedes_reauthorization(c.next(first).0, later);
}

/// Between two requests of the polling loop the coordinator asks for at
/// most one silent refresh, and for none once the recovery is used up.
pub proof fn lemma_one_refresh_per_poll(c: CoordinatorView, events: Seq<AuthEvent>)
    requires
        within_one_poll(events),
    ensures
        tally(c, events, ActionKind::RefreshToken) <= (if c.recovered {
            0nat
        } else {
            1nat
        }),
    decreases events.len(),
{
    if events.len() > 0 {
        let rest = events.drop_first();
        assert(!(events[0] is PollRequested));
        assert forall|i: int| 0 <= i < rest.len() implies !((#[trigger] rest[i])
            is PollRequested) by {
            assert(rest[i] == events[i + 1]);
        }
        lemma_one_refresh_per_poll(c.next(events[0]).0, rest);
    }
}

/// Between two requests of the polling loop the consent page is opened at
/// most once, and not at all once the recovery is used up.
pub proof fn lemma_one_session_per_poll(c: CoordinatorView, events: Seq<AuthEvent>)
    requires
        c.wf(),
        within_one_poll(events),
    ensures
        tally(c, events, ActionKind::OpenAuthorizeUrl) <= sessions_left(c),
    decreases events.len(),
{
    if events.len() > 0 {
        let rest = events.drop_first();
        assert(!(events[0] is PollRequested));
        assert forall|i: int| 0 <= i < rest.len() implies !((#[trigger] rest[i])
            is PollRequested) by {
            assert(rest[i] == events[i + 1]);
        }
        lemma_next_keeps_wf(c, events[0]);
        lemma_one_session_per_poll(c.next(events[0]).0, rest);
    }
}

/// One request of the polling loop, whatever becomes of it: a token that has
/// expired is refreshed before anything else is done with it; and if the
/// consent page is opened at all, exactly one silent refresh was asked for,
/// and the page is opened once.
pub proof fn lemma_exactly_one_refresh_before_reauthorization(
    c: CoordinatorView,
    now: u64,
    later: Seq<AuthEvent>,
)
    requires
        c.wf(),
        c.phase == Phase::Authorized,
        within_one_poll(later),
    ensures
        c.token.unwrap().expired(now) ==> c.next(AuthEvent::PollRequested { now }).1
            == AuthAction::RefreshToken,
        tally(
            c,
            seq![AuthEvent::PollRequested { now }] + later,
            ActionKind::OpenAuthorizeUrl,
        ) <= 1,
        tally(
            c,
            seq![AuthEvent::PollRequested { now }] + later,
            ActionKind::OpenAuthorizeUrl,
        ) > 0 ==> tally(
            c,
            seq![AuthEvent::PollRequested { now }] + later,
            ActionKind::RefreshToken,
        ) == 1,
{
    let first = AuthEvent::PollRequested { now };
    let all = seq![first] + later;
    assert(all[0] == first);
    assert(all.drop_first() =~= later);
    let after = c.next(first).0;
    lemma_next_keeps_wf(c, first);
    lemma_one_session_per_poll(after, later);
    lemma_one_refresh_per_poll(after, later);
    lemma_refresh_precedes_reauthorization(c, all);
}

} // verus!

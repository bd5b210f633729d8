//! The callback listener: what to do with the redirect that ends the
//! consent screen.

use vstd::prelude::*;
use vstd::string::*;

verus! {

/// `tokio::sync::mpsc::Sender`, the sending half of the bounded channel that
/// carries authorization codes to the coordinator. The type is only named
/// here so that it can stand in signatures: nothing is known of a value of
/// it.
#[verifier::external_type_specification]
#[verifier::external_body]
#[verifier::reject_recursive_types(T)]
pub struct ExSender<T>(tokio::sync::mpsc::Sender<T>);

/// How many codes the channel to the coordinator can hold. Any capacity of
/// at least one keeps the listener from waiting on the coordinator.
pub const CODE_CHANNEL_CAPACITY: usize = 100;

/// What the listener decided to do with a redirect.
#[derive(Clone, Debug, PartialEq, Eq)]
pub enum Routing {
    /// The identity provider reported an error; nothing is delivered.
    Reject(String),
    /// The redirect carries a code for the coordinator.
    Deliver(String),
    /// The redirect carries neither a code nor an error.
    Nothing,
}

/// How a redirect ended.
#[derive(Clone, Debug, PartialEq, Eq)]
pub enum CallbackOutcome {
    /// The identity provider reported this error.
    Rejected(String),
    /// The code was queued for the coordinator.
    Delivered,
    /// The channel took no further code; the code was dropped.
    Dropped,
    /// There was nothing to deliver.
    Empty,
}

/// The listener's answer to one redirect.
#[derive(Clone, Debug, PartialEq, Eq)]
pub struct CallbackReply {
    pub outcome: CallbackOutcome,
    /// The text sent back to the browser.
    pub body: String,
}

/// The text sent to the browser when the redirect reports an error.
pub open spec fn failure_body() -> Seq<char> {
    "Error in auth response!"@
}

/// The text sent to the browser in every other case.
pub open spec fn success_body() -> Seq<char> {
    "Thanks for authorising the app. You can close this window now."@
}

/// The decision for a redirect with these query parameters. An error wins
/// over a code: when both are present the code is ignored.
pub open spec fn routing_of(code: Option<String>, error: Option<String>) -> Routing {
    match error {
        Some(reason) => Routing::Reject(reason),
        None => match code {
            Some(code) => Routing::Deliver(code),
            None => Routing::Nothing,
        },
    }
}

/// How a redirect ends, given the decision and whether the channel accepted
/// the code (read only for a delivery).
pub open spec fn outcome_of(routing: Routing, accepted: bool) -> CallbackOutcome {
    match routing {
        Routing::Reject(reason) => CallbackOutcome::Rejected(reason),
        Routing::Deliver(_) => if accepted {
            CallbackOutcome::Delivered
        } else {
            CallbackOutcome::Dropped
        },
        Routing::Nothing => CallbackOutcome::Empty,
    }
}

/// The text for the browser: the failure text after an error, the success
/// text otherwise.
pub open spec fn body_of(routing: Routing) -> Seq<char> {
    match routing {
        Routing::Reject(_) => failure_body(),
        _ => success_body(),
    }
}

/// Decides what to do with a redirect from its two optional query
/// parameters.
pub fn route(code: Option<String>, error: Option<String>) -> (routing: Routing)
    ensures
        routing == routing_of(code, error),
{
    match error {
        Some(reason) => Routing::Reject(reason),
        None => match code {
            Some(code) => Routing::Deliver(code),
            None => Routing::Nothing,
        },
    }
}

/// Builds the answer to a redirect once it is known whether the channel
/// accepted the code.
pub fn reply_to(routing: Routing, accepted: bool) -> (reply: CallbackReply)
    ensures
        reply.outcome == outcome_of(routing, accepted),
        reply.body@ == body_of(routing),
{
    match routing {
        Routing::Reject(reason) => CallbackReply {
            outcome: CallbackOutcome::Rejected(reason),
            body: String::from_str("Error in auth response!"),
        },
        Routing::Deliver(_) => CallbackReply {
            outcome: if accepted {
                CallbackOutcome::Delivered
            } else {
                CallbackOutcome::Dropped
            },
            body: String::from_str(
                "Thanks for authorising the app. You can close this window now.",
            ),
        },
        Routing::Nothing => CallbackReply {
            outcome: CallbackOutcome::Empty,
            body: String::from_str(
                "Thanks for authorising the app. You can close this window now.",
            ),
        },
    }
}

/// Offers a code to the channel without waiting, through
/// `tokio::sync::mpsc::Sender::try_send`. The result says whether the channel
/// queued it; a full or closed channel drops the code. Nothing is claimed of
/// which of the two happens: that depends on the receiving side.
#[verifier::external_body]
fn offer_code(tx: &tokio::sync::mpsc::Sender<String>, code: String) -> (accepted: bool) {
    tx.try_send(code).is_ok()
}

/// Handles one redirect: an error is reported back and nothing is delivered;
/// a code is offered to the coordinator's channel without blocking; the
/// browser gets its text either way. The channel is touched only for a
/// delivery, and at most once.
pub fn handle_auth_response(
    code: Option<String>,
    error: Option<String>,
    tx: &tokio::sync::mpsc::Sender<String>,
) -> (reply: CallbackReply)
    ensures
        reply.body@ == body_of(routing_of(code, error)),
        routing_of(code, error) is Deliver ==> reply.outcome is Delivered || reply.outcome
            is Dropped,
        !(routing_of(code, error) is Deliver) ==> reply.outcome == outcome_of(
            routing_of(code, error),
            false,
        ),
{
    match route(code, error) {
        Routing::Deliver(code) => {
            let accepted = offer_code(tx, code.clone());
            reply_to(Routing::Deliver(code), accepted)
        },
        other => reply_to(other, false),
    }
}

} // verus!

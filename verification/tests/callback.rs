use now_playing::callback::{
    handle_auth_response, reply_to, route, CallbackOutcome, Routing, CODE_CHANNEL_CAPACITY,
};

const THANKS: &str = "Thanks for authorising the app. You can close this window now.";
const FAILED: &str = "Error in auth response!";

fn text(s: &str) -> Option<String> {
    Some(String::from(s))
}

#[test]
fn route_prefers_the_error() {
    assert_eq!(route(text("abc123"), None), Routing::Deliver(String::from("abc123")));
    assert_eq!(
        route(None, text("access_denied")),
        Routing::Reject(String::from("access_denied"))
    );
    assert_eq!(
        route(text("abc123"), text("access_denied")),
        Routing::Reject(String::from("access_denied"))
    );
    assert_eq!(route(None, None), Routing::Nothing);
}

#[test]
fn reply_depends_on_the_channel_only_for_a_delivery() {
    let delivered = reply_to(Routing::Deliver(String::from("c")), true);
    assert_eq!(delivered.outcome, CallbackOutcome::Delivered);
    assert_eq!(delivered.body, THANKS);
    let dropped = reply_to(Routing::Deliver(String::from("c")), false);
    assert_eq!(dropped.outcome, CallbackOutcome::Dropped);
    assert_eq!(dropped.body, THANKS);
    for accepted in [true, false] {
        let rejected = reply_to(Routing::Reject(String::from("nope")), accepted);
        assert_eq!(rejected.outcome, CallbackOutcome::Rejected(String::from("nope")));
        assert_eq!(rejected.body, FAILED);
        let empty = reply_to(Routing::Nothing, accepted);
        assert_eq!(empty.outcome, CallbackOutcome::Empty);
        assert_eq!(empty.body, THANKS);
    }
}

#[test]
fn code_reaches_the_channel_exactly_once() {
    let (tx, mut rx) = tokio::sync::mpsc::channel::<String>(4);
    let reply = handle_auth_response(text("abc123"), None, &tx);
    assert_eq!(reply.outcome, CallbackOutcome::Delivered);
    assert_eq!(reply.body, THANKS);
    assert_eq!(rx.try_recv().ok(), text("abc123"));
    assert!(rx.try_recv().is_err());
}

#[test]
fn error_redirect_delivers_nothing() {
    let (tx, mut rx) = tokio::sync::mpsc::channel::<String>(4);
    let reply = handle_auth_response(None, text("access_denied"), &tx);
    assert_eq!(reply.outcome, CallbackOutcome::Rejected(String::from("access_denied")));
    assert_eq!(reply.body, FAILED);
    assert!(rx.try_recv().is_err());
}

#[test]
fn error_redirect_ignores_a_code_beside_it() {
    let (tx, mut rx) = tokio::sync::mpsc::channel::<String>(4);
    let reply = handle_auth_response(text("abc123"), text("access_denied"), &tx);
    assert_eq!(reply.outcome, CallbackOutcome::Rejected(String::from("access_denied")));
    assert!(rx.try_recv().is_err());
}

#[test]
fn bare_redirect_delivers_nothing() {
    let (tx, mut rx) = tokio::sync::mpsc::channel::<String>(4);
    let reply = handle_auth_response(None, None, &tx);
    assert_eq!(reply.outcome, CallbackOutcome::Empty);
    assert_eq!(reply.body, THANKS);
    assert!(rx.try_recv().is_err());
}

#[test]
fn duplicate_redirect_on_a_full_channel_is_dropped() {
    let (tx, mut rx) = tokio::sync::mpsc::channel::<String>(1);
    let first = handle_auth_response(text("abc123"), None, &tx);
    assert_eq!(first.outcome, CallbackOutcome::Delivered);
    let second = handle_auth_response(text("abc123"), None, &tx);
    assert_eq!(second.outcome, CallbackOutcome::Dropped);
    assert_eq!(second.body, THANKS);
    assert_eq!(rx.try_recv().ok(), text("abc123"));
    assert!(rx.try_recv().is_err());
}

#[test]
fn redirect_after_the_coordinator_left_is_dropped() {
    let (tx, rx) = tokio::sync::mpsc::channel::<String>(1);
    drop(rx);
    let reply = handle_auth_response(text("late"), None, &tx);
    assert_eq!(reply.outcome, CallbackOutcome::Dropped);
    assert_eq!(reply.body, THANKS);
}

#[test]
fn channel_capacity_lets_the_listener_go_on() {
    assert!(CODE_CHANNEL_CAPACITY >= 1);
    assert_eq!(CODE_CHANNEL_CAPACITY, 100);
    let (tx, mut rx) = tokio::sync::mpsc::channel::<String>(CODE_CHANNEL_CAPACITY);
    for _ in 0..CODE_CHANNEL_CAPACITY {
        let reply = handle_auth_response(text("again"), None, &tx);
        assert_eq!(reply.outcome, CallbackOutcome::Delivered);
    }
    let reply = handle_auth_response(text("again"), None, &tx);
    assert_eq!(reply.outcome, CallbackOutcome::Dropped);
    assert_eq!(rx.try_recv().ok(), text("again"));
}

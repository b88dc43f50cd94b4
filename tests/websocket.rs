use ws_auth::protocol::{
    plan, respond, DecodeError, HandlerError, Request, Response, StoreCall, StoreReply,
};
use ws_auth::websocket::{Action, Event, WebSocket};

fn s(x: &str) -> String {
    x.to_string()
}

fn frame(req: Request) -> Event {
    Event::Binary { frame: Ok(req) }
}

fn reply(r: StoreReply) -> Event {
    Event::Reply { reply: r }
}

fn credentials(u: &str, p: &str) -> Request {
    Request::Credentials { username: s(u), password: s(p) }
}

#[test]
fn credentials_login_example() {
    let mut ws = WebSocket::new();
    let a = ws.handle(frame(credentials("alice", "secret")));
    assert_eq!(a, vec![Action::Call { call: StoreCall::Create { username: s("alice") } }]);
    assert!(ws.is_waiting());
    let a = ws.handle(reply(StoreReply::Created { token: s("tok123") }));
    assert_eq!(a, vec![Action::Send { response: Response::LoginToken { token: s("tok123") } }]);
    assert!(!ws.is_waiting());
    assert!(!ws.is_closed());
}

#[test]
fn failed_renewal_example() {
    let mut ws = WebSocket::new();
    let a = ws.handle(frame(Request::Token { token: s("bad") }));
    assert_eq!(a, vec![Action::Call { call: StoreCall::Verify { token: s("bad") } }]);
    let a = ws.handle(reply(StoreReply::VerifyFailed { message: s("expired") }));
    assert_eq!(a, vec![Action::Send { response: Response::LoginError { error: s("expired") } }]);
}

#[test]
fn successful_renewal_returns_new_token() {
    let mut ws = WebSocket::new();
    let a = ws.handle(frame(Request::Token { token: s("old") }));
    assert_eq!(a, vec![Action::Call { call: StoreCall::Verify { token: s("old") } }]);
    let a = ws.handle(reply(StoreReply::Verified { token: s("new") }));
    assert_eq!(a, vec![Action::Send { response: Response::LoginToken { token: s("new") } }]);
}

#[test]
fn empty_credentials_never_reach_the_store() {
    for (u, p) in [("", "secret"), ("alice", ""), ("", "")] {
        let mut ws = WebSocket::new();
        let a = ws.handle(frame(credentials(u, p)));
        assert_eq!(a, vec![Action::Drop { error: HandlerError::WrongUsernamePassword }]);
        assert!(!ws.is_waiting());
        assert!(!ws.is_closed());
    }
}

#[test]
fn failed_create_writes_nothing() {
    let mut ws = WebSocket::new();
    ws.handle(frame(credentials("bob", "pw")));
    let a = ws.handle(reply(StoreReply::CreateFailed { message: s("db down") }));
    assert_eq!(a, vec![Action::Drop { error: HandlerError::Store { message: s("db down") } }]);
    assert!(!ws.is_closed());
}

#[test]
fn logout_success_and_failure() {
    let mut ws = WebSocket::new();
    let a = ws.handle(frame(Request::Logout { token: s("t1") }));
    assert_eq!(a, vec![Action::Call { call: StoreCall::Remove { token: s("t1") } }]);
    let a = ws.handle(reply(StoreReply::Removed));
    assert_eq!(a, vec![Action::Send { response: Response::Logout { success: true } }]);

    ws.handle(frame(Request::Logout { token: s("t2") }));
    let a = ws.handle(reply(StoreReply::RemoveFailed { message: s("unknown") }));
    assert_eq!(a, vec![Action::Drop { error: HandlerError::Store { message: s("unknown") } }]);
    assert!(!ws.is_closed());
}

#[test]
fn undecodable_frames_keep_connection_open() {
    for e in [DecodeError::Envelope, DecodeError::UnknownTag, DecodeError::UnknownLoginTag] {
        let mut ws = WebSocket::new();
        let a = ws.handle(Event::Binary { frame: Err(e) });
        assert_eq!(a, vec![Action::Drop { error: HandlerError::Decode { error: e } }]);
        assert!(!ws.is_closed());
        let a = ws.handle(frame(Request::Token { token: s("t") }));
        assert_eq!(a, vec![Action::Call { call: StoreCall::Verify { token: s("t") } }]);
    }
}

#[test]
fn close_stops_all_later_frames() {
    let mut ws = WebSocket::new();
    assert_eq!(ws.handle(Event::Close), vec![Action::Stop]);
    assert!(ws.is_closed());
    assert_eq!(ws.handle(frame(credentials("alice", "secret"))), vec![]);
    assert_eq!(ws.handle(reply(StoreReply::Removed)), vec![]);
    assert_eq!(ws.handle(Event::Close), vec![]);
    assert!(ws.is_closed());
}

#[test]
fn close_while_call_in_flight_discards_reply() {
    let mut ws = WebSocket::new();
    ws.handle(frame(Request::Token { token: s("a") }));
    ws.handle(frame(Request::Token { token: s("b") }));
    assert_eq!(ws.handle(Event::Close), vec![Action::Stop]);
    assert!(!ws.is_waiting());
    assert_eq!(ws.handle(reply(StoreReply::Verified { token: s("a2") })), vec![]);
}

#[test]
fn other_frames_are_ignored() {
    let mut ws = WebSocket::new();
    assert_eq!(ws.handle(Event::Other), vec![]);
    assert!(!ws.is_closed());
}

#[test]
fn frames_are_answered_in_arrival_order() {
    let mut ws = WebSocket::new();
    let a = ws.handle(frame(Request::Token { token: s("first") }));
    assert_eq!(a, vec![Action::Call { call: StoreCall::Verify { token: s("first") } }]);
    assert_eq!(ws.handle(Event::Binary { frame: Err(DecodeError::UnknownTag) }), vec![]);
    assert_eq!(ws.handle(frame(Request::Logout { token: s("second") })), vec![]);
    let a = ws.handle(reply(StoreReply::Verified { token: s("renewed") }));
    assert_eq!(
        a,
        vec![
            Action::Send { response: Response::LoginToken { token: s("renewed") } },
            Action::Drop { error: HandlerError::Decode { error: DecodeError::UnknownTag } },
            Action::Call { call: StoreCall::Remove { token: s("second") } },
        ]
    );
    let a = ws.handle(reply(StoreReply::Removed));
    assert_eq!(a, vec![Action::Send { response: Response::Logout { success: true } }]);
    assert!(!ws.is_waiting());
}

#[test]
fn reply_without_call_is_reported() {
    let mut ws = WebSocket::new();
    let a = ws.handle(reply(StoreReply::Removed));
    assert_eq!(a, vec![Action::Drop { error: HandlerError::MismatchedReply }]);
}

#[test]
fn plan_names_the_store_call() {
    assert_eq!(plan(credentials("u", "p")), Ok(StoreCall::Create { username: s("u") }));
    assert_eq!(plan(credentials("u", "")), Err(HandlerError::WrongUsernamePassword));
    assert_eq!(plan(Request::Token { token: s("t") }), Ok(StoreCall::Verify { token: s("t") }));
    assert_eq!(plan(Request::Logout { token: s("t") }), Ok(StoreCall::Remove { token: s("t") }));
}

#[test]
fn respond_rejects_a_mismatched_reply() {
    let call = StoreCall::Create { username: s("u") };
    assert_eq!(
        respond(&call, StoreReply::Verified { token: s("t") }),
        Err(HandlerError::MismatchedReply)
    );
    assert_eq!(respond(&call, StoreReply::Removed), Err(HandlerError::MismatchedReply));
    let call = StoreCall::Remove { token: s("t") };
    assert_eq!(
        respond(&call, StoreReply::VerifyFailed { message: s("m") }),
        Err(HandlerError::MismatchedReply)
    );
}

#[test]
fn duplicate_keeps_the_call() {
    let call = StoreCall::Verify { token: s("abc") };
    assert_eq!(call.duplicate(), call);
}

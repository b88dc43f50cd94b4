//! What holds of every connection, stated over [`step`] and [`run`].
use vstd::prelude::*;
use crate::protocol::{plan_spec, respond_spec, DecodeError, HandlerError, Request, Response, StoreCall, StoreReply};
use crate::websocket::{answer, drain, run, start, step, Action, Conn, Event};

verus! {

/// On an idle connection, a frame that needs the store call `call` puts it in
/// flight; the reply is answered and the connection is idle again.
proof fn lemma_exchange(c: Conn, req: Request, call: StoreCall, reply: StoreReply)
    requires
        c.idle(),
        plan_spec(req) == Ok::<StoreCall, HandlerError>(call),
    ensures
        run(c, seq![Event::Binary { frame: Ok(req) }, Event::Reply { reply }]) == (
            c,
            seq![Action::Call { call }, answer(respond_spec(call, reply))],
        ),
{
    let frame: Result<Request, DecodeError> = Ok(req);
    let es = seq![Event::Binary { frame }, Event::Reply { reply }];
    let c0 = Conn { queue: c.queue.push(frame), ..c };
    let c1 = Conn { closed: false, pending: Some(call), queue: c0.queue.drop_first() };
    assert(c1.queue =~= seq![]);
    assert(drain(c1) == (c1, Seq::<Action>::empty()));
    assert(step(c, es[0]) == (c1, seq![Action::Call { call }] + Seq::<Action>::empty()));
    let c2 = Conn { pending: None, ..c1 };
    assert(c.queue =~= seq![]);
    assert(c2 == c);
    assert(drain(c2) == (c, Seq::<Action>::empty()));
    assert(es.drop_first().drop_first() =~= seq![]);
    assert(es.drop_first()[0] == Event::Reply { reply });
    reveal_with_fuel(run, 3);
    assert(run(c, es).1 =~= seq![Action::Call { call }, answer(respond_spec(call, reply))]);
}

/// A credential login with a non-empty user name and password asks the store
/// to create a token for that user and answers with exactly the token created.
pub proof fn credentials_login_returns_created_token(
    c: Conn,
    username: String,
    password: String,
    token: String,
)
    requires
        c.idle(),
        username@.len() > 0,
        password@.len() > 0,
    ensures
        run(
            c,
            seq![
                Event::Binary { frame: Ok(Request::Credentials { username, password }) },
                Event::Reply { reply: StoreReply::Created { token } },
            ],
        ) == (
            c,
            seq![
                Action::Call { call: StoreCall::Create { username } },
                Action::Send { response: Response::LoginToken { token } },
            ],
        ),
{
    lemma_exchange(
        c,
        Request::Credentials { username, password },
        StoreCall::Create { username },
        StoreReply::Created { token },
    );
}

/// A credential login with an empty user name or an empty password, or both,
/// makes no store call and writes nothing.
pub proof fn empty_credentials_are_dropped(c: Conn, username: String, password: String)
    requires
        c.idle(),
        username@.len() == 0 || password@.len() == 0,
    ensures
        step(c, Event::Binary { frame: Ok(Request::Credentials { username, password }) }) == (
            c,
            seq![Action::Drop { error: HandlerError::WrongUsernamePassword }],
        ),
{
    let frame: Result<Request, DecodeError> = Ok(Request::Credentials { username, password });
    let c0 = Conn { queue: c.queue.push(frame), ..c };
    let c1 = Conn { closed: false, pending: None, queue: c0.queue.drop_first() };
    assert(c1.queue =~= seq![]);
    assert(c.queue =~= seq![]);
    assert(c1 == c);
    assert(drain(c1) == (c, Seq::<Action>::empty()));
    assert(drain(c0).1 =~= seq![Action::Drop { error: HandlerError::WrongUsernamePassword }]);
}

/// A token renewal that the store verifies is answered with exactly the
/// renewed token.
pub proof fn renewal_returns_verified_token(c: Conn, token: String, renewed: String)
    requires
        c.idle(),
    ensures
        run(
            c,
            seq![
                Event::Binary { frame: Ok(Request::Token { token }) },
                Event::Reply { reply: StoreReply::Verified { token: renewed } },
            ],
        ) == (
            c,
            seq![
                Action::Call { call: StoreCall::Verify { token } },
                Action::Send { response: Response::LoginToken { token: renewed } },
            ],
        ),
{
    lemma_exchange(
        c,
        Request::Token { token },
        StoreCall::Verify { token },
        StoreReply::Verified { token: renewed },
    );
}

/// A token renewal that the store refuses is answered with exactly the
/// store's message as an in-band error; it is never dropped.
pub proof fn failed_renewal_returns_error(c: Conn, token: String, message: String)
    requires
        c.idle(),
    ensures
        run(
            c,
            seq![
                Event::Binary { frame: Ok(Request::Token { token }) },
                Event::Reply { reply: StoreReply::VerifyFailed { message } },
            ],
        ) == (
            c,
            seq![
                Action::Call { call: StoreCall::Verify { token } },
                Action::Send { response: Response::LoginError { error: message } },
            ],
        ),
{
    lemma_exchange(
        c,
        Request::Token { token },
        StoreCall::Verify { token },
        StoreReply::VerifyFailed { message },
    );
}

/// A logout that the store performs is answered with exactly one successful
/// logout result; one that the store fails is answered with nothing.
pub proof fn logout_answers_only_on_success(c: Conn, token: String, message: String)
    requires
        c.idle(),
    ensures
        run(
            c,
            seq![
                Event::Binary { frame: Ok(Request::Logout { token }) },
                Event::Reply { reply: StoreReply::Removed },
            ],
        ) == (
            c,
            seq![
                Action::Call { call: StoreCall::Remove { token } },
                Action::Send { response: Response::Logout { success: true } },
            ],
        ),
        run(
            c,
            seq![
                Event::Binary { frame: Ok(Request::Logout { token }) },
                Event::Reply { reply: StoreReply::RemoveFailed { message } },
            ],
        ) == (
            c,
            seq![
                Action::Call { call: StoreCall::Remove { token } },
                Action::Drop { error: HandlerError::Store { message } },
            ],
        ),
{
    lemma_exchange(c, Request::Logout { token }, StoreCall::Remove { token }, StoreReply::Removed);
    lemma_exchange(
        c,
        Request::Logout { token },
        StoreCall::Remove { token },
        StoreReply::RemoveFailed { message },
    );
}

/// A frame that could not be decoded writes nothing and leaves the
/// connection open and idle.
pub proof fn undecodable_frame_is_dropped(c: Conn, error: DecodeError)
    requires
        c.idle(),
    ensures
        step(c, Event::Binary { frame: Err(error) }) == (
            c,
            seq![Action::Drop { error: HandlerError::Decode { error } }],
        ),
{
    let frame: Result<Request, DecodeError> = Err(error);
    let c0 = Conn { queue: c.queue.push(frame), ..c };
    let c1 = Conn { closed: false, pending: None, queue: c0.queue.drop_first() };
    assert(c1.queue =~= seq![]);
    assert(c.queue =~= seq![]);
    assert(c1 == c);
    assert(drain(c1) == (c, Seq::<Action>::empty()));
    assert(drain(c0).1 =~= seq![Action::Drop { error: HandlerError::Decode { error } }]);
}

proof fn lemma_closed_is_inert(c: Conn, es: Seq<Event>)
    requires
        c.closed,
    ensures
        run(c, es) == (c, Seq::<Action>::empty()),
    decreases es.len(),
{
    if es.len() > 0 {
        lemma_closed_is_inert(c, es.drop_first());
        assert(run(c, es).1 =~= Seq::<Action>::empty());
    }
}

/// Once a close frame is received, no later event is dispatched: the
/// connection stays closed and asks for nothing more.
pub proof fn close_ends_processing(c: Conn, later: Seq<Event>)
    requires
        c.wf(),
    ensures
        step(c, Event::Close).0.closed,
        run(step(c, Event::Close).0, later) == (step(c, Event::Close).0, Seq::<Action>::empty()),
{
    lemma_closed_is_inert(step(c, Event::Close).0, later);
}

/// While a store call is in flight, a new frame only waits behind the frames
/// that arrived before it.
pub proof fn frame_waits_for_call_in_flight(c: Conn, frame: Result<Request, DecodeError>)
    requires
        c.wf(),
        !c.closed,
        c.pending is Some,
    ensures
        step(c, Event::Binary { frame }) == (
            Conn { queue: c.queue.push(frame), ..c },
            Seq::<Action>::empty(),
        ),
{
}

/// Two frames on an idle connection are handled in arrival order, each fully
/// answered before the next one reaches the store, even when the second
/// arrives before the first is answered.
pub proof fn frames_are_handled_in_order(
    c: Conn,
    first: Request,
    second: Request,
    call1: StoreCall,
    call2: StoreCall,
    reply1: StoreReply,
    reply2: StoreReply,
)
    requires
        c.idle(),
        plan_spec(first) == Ok::<StoreCall, HandlerError>(call1),
        plan_spec(second) == Ok::<StoreCall, HandlerError>(call2),
    ensures
        run(
            c,
            seq![
                Event::Binary { frame: Ok(first) },
                Event::Binary { frame: Ok(second) },
                Event::Reply { reply: reply1 },
                Event::Reply { reply: reply2 },
            ],
        ) == (
            c,
            seq![
                Action::Call { call: call1 },
                answer(respond_spec(call1, reply1)),
                Action::Call { call: call2 },
                answer(respond_spec(call2, reply2)),
            ],
        ),
{
    let f1: Result<Request, DecodeError> = Ok(first);
    let f2: Result<Request, DecodeError> = Ok(second);
    let es = seq![
        Event::Binary { frame: f1 },
        Event::Binary { frame: f2 },
        Event::Reply { reply: reply1 },
        Event::Reply { reply: reply2 },
    ];
    let empty = Seq::<Action>::empty();
    // first frame: its call goes out
    let c1 = Conn { closed: false, pending: Some(call1), queue: seq![] };
    assert(c.queue.push(f1).drop_first() =~= seq![]);
    assert(drain(c1) == (c1, empty));
    assert(step(c, es[0]) == (c1, seq![Action::Call { call: call1 }] + empty));
    // second frame: it waits
    let c2 = Conn { closed: false, pending: Some(call1), queue: seq![f2] };
    assert(c1.queue.push(f2) =~= seq![f2]);
    assert(step(c1, es[1]) == (c2, empty));
    // first reply: answered, then the waiting frame goes out
    let c3 = Conn { closed: false, pending: Some(call2), queue: seq![] };
    assert(seq![f2].drop_first() =~= seq![]);
    assert(drain(c3) == (c3, empty));
    assert(start(f2) == (Some(call2), seq![Action::Call { call: call2 }]));
    assert(drain(Conn { pending: None, ..c2 }) == (c3, seq![Action::Call { call: call2 }] + empty));
    assert(step(c2, es[2]).0 == c3);
    assert(step(c2, es[2]).1 =~= seq![answer(respond_spec(call1, reply1)), Action::Call { call: call2 }]);
    // second reply: answered, idle again
    let c4 = Conn { pending: None, ..c3 };
    assert(c.queue =~= seq![]);
    assert(c4 == c);
    assert(drain(c4) == (c, empty));
    assert(step(c3, es[3]).1 =~= seq![answer(respond_spec(call2, reply2))]);
    let t1 = es.drop_first();
    let t2 = t1.drop_first();
    let t3 = t2.drop_first();
    assert(t1[0] == es[1]);
    assert(t2[0] == es[2]);
    assert(t3[0] == es[3]);
    assert(t3.drop_first() =~= Seq::<Event>::empty());
    reveal_with_fuel(run, 5);
    assert(run(c, es).1 =~= seq![
        Action::Call { call: call1 },
        answer(respond_spec(call1, reply1)),
        Action::Call { call: call2 },
        answer(respond_spec(call2, reply2)),
    ]);
}

} // verus!

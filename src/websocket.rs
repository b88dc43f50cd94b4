//! The per-connection lifecycle: open, then frames one at a time, then closed.
use vstd::prelude::*;
use std::collections::VecDeque;
use crate::protocol::{
    plan, plan_spec, respond, respond_spec, DecodeError, HandlerError, Request, Response,
    StoreCall, StoreReply,
};

verus! {

/// What the transport or the token store hands to a connection.
#[derive(Debug, PartialEq, Eq)]
pub enum Event {
    /// A binary data frame, with the outcome of decoding it.
    Binary { frame: Result<Request, DecodeError> },
    /// The peer closed the connection.
    Close,
    /// Any other frame kind: it is ignored.
    Other,
    /// The token store answered the call that is in flight.
    Reply { reply: StoreReply },
}

/// What the connection asks its driver to do.
#[derive(Debug, PartialEq, Eq)]
pub enum Action {
    /// Make this call on the token store and hand back its reply.
    Call { call: StoreCall },
    /// Encode this response and write it as one binary frame.
    Send { response: Response },
    /// Log this error; nothing is written for the frame.
    Drop { error: HandlerError },
    /// Stop reading from the connection.
    Stop,
}

/// The abstract state of a connection.
pub ghost struct Conn {
    pub closed: bool,
    /// The store call whose reply is awaited, if any.
    pub pending: Option<StoreCall>,
    /// Frames that arrived while a call was in flight, oldest first.
    pub queue: Seq<Result<Request, DecodeError>>,
}

impl Conn {
    /// Frames wait only behind a call in flight, and a closed connection holds nothing.
    pub open spec fn wf(self) -> bool {
        &&& (self.pending is None ==> self.queue.len() == 0)
        &&& (self.closed ==> self.pending is None)
    }

    /// Open, with no call in flight.
    pub open spec fn idle(self) -> bool {
        &&& !self.closed
        &&& self.pending is None
        &&& self.queue.len() == 0
    }
}

/// The action that reports the outcome of a finished exchange.
pub open spec fn answer(r: Result<Response, HandlerError>) -> Action {
    match r {
        Ok(response) => Action::Send { response },
        Err(error) => Action::Drop { error },
    }
}

/// Dispatching one frame: the call it puts in flight, if any, and the actions.
pub open spec fn start(frame: Result<Request, DecodeError>) -> (Option<StoreCall>, Seq<Action>) {
    match frame {
        Err(error) => (None, seq![Action::Drop { error: HandlerError::Decode { error } }]),
        Ok(req) => match plan_spec(req) {
            Err(error) => (None, seq![Action::Drop { error }]),
            Ok(call) => (Some(call), seq![Action::Call { call }]),
        },
    }
}

/// Dispatches waiting frames, oldest first, until one puts a call in flight.
pub open spec fn drain(c: Conn) -> (Conn, Seq<Action>)
    decreases c.queue.len(),
{
    if c.pending is Some || c.queue.len() == 0 {
        (c, seq![])
    } else {
        let (p, a) = start(c.queue[0]);
        let (c2, a2) = drain(Conn { closed: c.closed, pending: p, queue: c.queue.drop_first() });
        (c2, a + a2)
    }
}

/// The next state and the actions of a connection in state `c` on event `e`.
pub open spec fn step(c: Conn, e: Event) -> (Conn, Seq<Action>) {
    if c.closed {
        (c, seq![])
    } else {
        match e {
            Event::Close => (Conn { closed: true, pending: None, queue: seq![] }, seq![Action::Stop]),
            Event::Other => (c, seq![]),
            Event::Binary { frame } => drain(Conn { queue: c.queue.push(frame), ..c }),
            Event::Reply { reply } => match c.pending {
                None => (c, seq![Action::Drop { error: HandlerError::MismatchedReply }]),
                Some(call) => {
                    let (c2, a2) = drain(Conn { pending: None, ..c });
                    (c2, seq![answer(respond_spec(call, reply))] + a2)
                },
            },
        }
    }
}

/// A connection's state and actions after a sequence of events, in order.
pub open spec fn run(c: Conn, es: Seq<Event>) -> (Conn, Seq<Action>)
    decreases es.len(),
{
    if es.len() == 0 {
        (c, seq![])
    } else {
        let (c1, a1) = step(c, es[0]);
        let (c2, a2) = run(c1, es.drop_first());
        (c2, a1 + a2)
    }
}

proof fn lemma_drain_wf(c: Conn)
    requires
        c.closed ==> c.pending is None && c.queue.len() == 0,
    ensures
        drain(c).0.wf(),
        drain(c).0.closed == c.closed,
    decreases c.queue.len(),
{
    if !(c.pending is Some || c.queue.len() == 0) {
        let (p, a) = start(c.queue[0]);
        lemma_drain_wf(Conn { closed: c.closed, pending: p, queue: c.queue.drop_first() });
    }
}

proof fn lemma_step_wf(c: Conn, e: Event)
    requires
        c.wf(),
    ensures
        step(c, e).0.wf(),
{
    if !c.closed {
        match e {
            Event::Binary { frame } => lemma_drain_wf(Conn { queue: c.queue.push(frame), ..c }),
            Event::Reply { reply } => {
                if c.pending is Some {
                    lemma_drain_wf(Conn { pending: None, ..c });
                }
            },
            _ => {},
        }
    }
}

/// One connection's dispatcher.
#[derive(Debug)]
pub struct WebSocket {
    closed: bool,
    pending: Option<StoreCall>,
    queue: VecDeque<Result<Request, DecodeError>>,
}

impl View for WebSocket {
    type V = Conn;

    closed spec fn view(&self) -> Conn {
        Conn { closed: self.closed, pending: self.pending, queue: self.queue@ }
    }
}

impl WebSocket {
    /// A freshly opened connection.
    pub fn new() -> (r: Self)
        ensures
            r@.idle(),
            r@.wf(),
    {
        WebSocket { closed: false, pending: None, queue: VecDeque::new() }
    }

    /// Whether the connection has been closed.
    pub fn is_closed(&self) -> (r: bool)
        ensures
            r == self@.closed,
    {
        self.closed
    }

    /// Whether a store call is awaiting its reply.
    pub fn is_waiting(&self) -> (r: bool)
        ensures
            r == self@.pending is Some,
    {
        self.pending.is_some()
    }

    fn drain(&mut self, actions: &mut Vec<Action>)
        requires
            !old(self)@.closed,
        ensures
            final(self)@ == drain(old(self)@).0,
            final(actions)@ == old(actions)@ + drain(old(self)@).1,
    {
        let ghost s0 = self@;
        let ghost a0 = actions@;
        loop
            invariant
                !self@.closed,
                s0 == old(self)@,
                a0 == old(actions)@,
                drain(self@).0 == drain(s0).0,
                a0 + drain(s0).1 == actions@ + drain(self@).1,
            decreases self@.queue.len(),
        {
            if self.pending.is_some() || self.queue.len() == 0 {
                assert(drain(self@) == (self@, Seq::<Action>::empty()));
                assert(actions@ + drain(self@).1 =~= actions@);
                return;
            }
            let ghost before = self@;
            let frame = self.queue.pop_front().unwrap();
            let ghost acts_before = actions@;
            match frame {
                Err(error) => {
                    actions.push(Action::Drop { error: HandlerError::Decode { error } });
                },
                Ok(req) => match plan(req) {
                    Err(error) => {
                        actions.push(Action::Drop { error });
                    },
                    Ok(call) => {
                        let sent = call.duplicate();
                        self.pending = Some(call);
                        actions.push(Action::Call { call: sent });
                    },
                },
            }
            proof {
                let (p, a) = start(before.queue[0]);
                assert(self@ == Conn { closed: before.closed, pending: p, queue: before.queue.drop_first() });
                assert(actions@ =~= acts_before + a);
                assert(acts_before + drain(before).1 =~= actions@ + drain(self@).1);
            }
        }
    }

    /// Handles one event and returns, in order, what the driver must do.
    pub fn handle(&mut self, event: Event) -> (actions: Vec<Action>)
        requires
            old(self)@.wf(),
        ensures
            final(self)@.wf(),
            (final(self)@, actions@) == step(old(self)@, event),
    {
        proof {
            lemma_step_wf(self@, event);
        }
        let mut actions: Vec<Action> = Vec::new();
        if self.closed {
            return actions;
        }
        match event {
            Event::Close => {
                self.closed = true;
                self.pending = None;
                self.queue.clear();
                actions.push(Action::Stop);
                proof {
                    assert(self@ == step(old(self)@, Event::Close).0);
                    assert(actions@ =~= seq![Action::Stop]);
                }
            },
            Event::Other => {},
            Event::Binary { frame } => {
                self.queue.push_back(frame);
                self.drain(&mut actions);
                proof {
                    assert(actions@ =~= seq![] + drain(Conn { queue: old(self)@.queue.push(frame), ..old(self)@ }).1);
                }
            },
            Event::Reply { reply } => {
                let pending = self.pending.take();
                match pending {
                    None => {
                        actions.push(Action::Drop { error: HandlerError::MismatchedReply });
                        proof {
                            assert(actions@ =~= seq![Action::Drop { error: HandlerError::MismatchedReply }]);
                        }
                    },
                    Some(call) => {
                        let outcome = respond(&call, reply);
                        let first = match outcome {
                            Ok(response) => Action::Send { response },
                            Err(error) => Action::Drop { error },
                        };
                        actions.push(first);
                        let ghost head = actions@;
                        self.drain(&mut actions);
                        proof {
                            assert(self@ == drain(Conn { pending: None, ..old(self)@ }).0);
                            assert(actions@ =~= head + drain(Conn { pending: None, ..old(self)@ }).1);
                        }
                    },
                }
            },
        }
        actions
    }
}

} // verus!

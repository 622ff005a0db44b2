//! The per-connection protocol engine.
//!
//! The engine is the decision core of a server connection: it takes each
//! inbound message, tells the caller which service operation to start, and
//! tracks every in-flight request by id — each dispatch gets a fresh
//! token, so a completion is delivered only if its dispatch is still the
//! current one under that id. Completions become responses queued on an
//! outbound list that is flushed under backpressure and never dropped.
//! The surrounding I/O loop owns the futures and the socket; every
//! decision lives here.
//!
//! An application error from a request's operation becomes a failure
//! response to that one request and touches nothing else on the
//! connection; a notification's error has no reply channel and is
//! discarded by the caller.

use std::collections::HashMap;

use vstd::prelude::*;

use crate::message::{Message, MsgView, NoteView, Notification, Request, RespView, Response};
use crate::value::{Val, ValView};

verus! {

broadcast use
    vstd::std_specs::vec::group_vec_axioms,
    vstd::seq::group_seq_axioms,
    vstd::std_specs::hash::group_hash_axioms;

/// The views of a queue of messages, front first.
pub open spec fn msgs_view(s: Seq<Message>) -> Seq<MsgView> {
    Seq::new(
        s.len(),
        |i: int|
            if 0 <= i < s.len() {
                s[i]@
            } else {
                MsgView::Notification(NoteView { method: Seq::empty(), params: Seq::empty() })
            },
    )
}

/// The engine's abstract state: which request ids are in flight and under
/// which dispatch token, how many notification operations are running,
/// and which responses wait to be flushed, front first.
#[verifier::ext_equal]
pub struct ProtocolView {
    pub pending: Map<u32, u64>,
    pub notifications: u64,
    pub outbound: Seq<MsgView>,
    pub next_token: u64,
}

/// Every token in the table was handed out before the next one: a fresh
/// dispatch can never collide with a stored token.
pub open spec fn inv(p: ProtocolView) -> bool {
    forall|id: u32| #[trigger] p.pending.contains_key(id) ==> p.pending[id] < p.next_token
}

/// Dispatching a request: its id enters the table under a fresh token,
/// replacing any entry that id had.
pub open spec fn spec_dispatch(p: ProtocolView, id: u32) -> ProtocolView {
    ProtocolView {
        pending: p.pending.insert(id, p.next_token),
        next_token: (p.next_token + 1) as u64,
        ..p
    }
}

/// Dispatching a notification: one more unkeyed operation is running.
pub open spec fn spec_dispatch_note(p: ProtocolView) -> ProtocolView {
    ProtocolView { notifications: (p.notifications + 1) as u64, ..p }
}

/// One notification operation finished.
pub open spec fn spec_note_done(p: ProtocolView) -> ProtocolView {
    ProtocolView { notifications: (p.notifications - 1) as u64, ..p }
}

/// The response the engine sends for a completed request: the stored id —
/// never the one the service put there — with the service's payload on
/// success, or the application error as the failure payload.
pub open spec fn response_msg(id: u32, outcome: Result<RespView, ValView>) -> MsgView {
    MsgView::Response(
        RespView {
            id: id as int,
            result: match outcome {
                Ok(rv) => rv.result,
                Err(e) => Err(e),
            },
        },
    )
}

/// Completing a request: only a completion that carries the id's current
/// token is delivered — its entry leaves the table and its response joins
/// the outbound queue. A stale token changes nothing.
pub open spec fn spec_complete(
    p: ProtocolView,
    id: u32,
    token: u64,
    outcome: Result<RespView, ValView>,
) -> (ProtocolView, bool) {
    if p.pending.contains_key(id) && p.pending[id] == token {
        (
            ProtocolView {
                pending: p.pending.remove(id),
                outbound: p.outbound.push(response_msg(id, outcome)),
                ..p
            },
            true,
        )
    } else {
        (p, false)
    }
}

/// The view of a service outcome handed back for a request.
pub open spec fn outcome_view(o: Result<Response, Val>) -> Result<RespView, ValView> {
    match o {
        Ok(r) => Ok(r@),
        Err(e) => Err(e@),
    }
}

/// What the caller must do after handing the engine a message.
pub enum Action {
    /// Start the service's request handler and hold its operation under
    /// this token; report its outcome with `complete_request`.
    StartRequest { token: u64, request: Request },
    /// Start the service's notification handler; report its end with
    /// `complete_notification`.
    StartNotification { notification: Notification },
    /// Nothing: a server discards responses a peer sends it.
    Discard,
}

/// The engine. It owns no I/O: inbound messages, completions and flushed
/// bytes are reported to it, and it answers with what to do next.
pub struct Protocol {
    pending: HashMap<u32, u64>,
    notifications: u64,
    outbound: Vec<Message>,
    next_token: u64,
}

impl View for Protocol {
    type V = ProtocolView;

    closed spec fn view(&self) -> ProtocolView {
        ProtocolView {
            pending: self.pending@,
            notifications: self.notifications,
            outbound: msgs_view(self.outbound@),
            next_token: self.next_token,
        }
    }
}

impl Protocol {
    /// A fresh engine: nothing in flight, nothing to send.
    pub fn new() -> (p: Protocol)
        ensures
            p@.pending == Map::<u32, u64>::empty(),
            p@.notifications == 0,
            p@.outbound == Seq::<MsgView>::empty(),
            p@.next_token == 0,
            inv(p@),
    {
        let p = Protocol {
            pending: HashMap::new(),
            notifications: 0,
            outbound: Vec::new(),
            next_token: 0,
        };
        proof {
            assert(p@.outbound =~= Seq::<MsgView>::empty());
        }
        p
    }

    /// Takes one inbound message and says what to start. A request enters
    /// the in-flight table under a fresh token, replacing any entry with
    /// the same id; a notification bumps the running count; a response
    /// from the peer is discarded.
    pub fn handle_msg(&mut self, msg: Message) -> (a: Action)
        requires
            inv(old(self)@),
            old(self)@.next_token < 0xffff_ffff_ffff_ffff,
            old(self)@.notifications < 0xffff_ffff_ffff_ffff,
        ensures
            inv(final(self)@),
            match msg {
                Message::Request(req) => final(self)@ == spec_dispatch(old(self)@, req.id) && (
                a matches Action::StartRequest { token, request } && request == req && token == old(
                    self,
                )@.next_token),
                Message::Notification(note) => final(self)@ == spec_dispatch_note(old(self)@) && (
                a matches Action::StartNotification { notification } && notification == note),
                Message::Response(_) => final(self)@ == old(self)@ && a is Discard,
            },
    {
        match msg {
            Message::Request(request) => {
                let token = self.next_token;
                self.next_token = token + 1;
                self.pending.insert(request.id, token);
                proof {
                    assert(self@ =~= spec_dispatch(old(self)@, request.id));
                }
                Action::StartRequest { token, request }
            },
            Message::Notification(notification) => {
                self.notifications = self.notifications + 1;
                proof {
                    assert(self@ =~= spec_dispatch_note(old(self)@));
                }
                Action::StartNotification { notification }
            },
            Message::Response(_) => {
                proof {
                    assert(self@ =~= old(self)@);
                }
                Action::Discard
            },
        }
    }

    /// Reports the outcome of the request operation that was dispatched
    /// under `token` for `id`. If that dispatch is still current, its
    /// entry leaves the table and the response — success payload or
    /// failure carrying the application error, always under the stored
    /// id — joins the outbound queue; a stale completion is dropped and
    /// the answer is false.
    pub fn complete_request(&mut self, id: u32, token: u64, outcome: Result<Response, Val>) -> (delivered:
        bool)
        requires
            inv(old(self)@),
        ensures
            inv(final(self)@),
            (final(self)@, delivered) == spec_complete(old(self)@, id, token, outcome_view(outcome)),
    {
        let current = match self.pending.get(&id) {
            Some(t) => *t == token,
            None => false,
        };
        if current {
            self.pending.remove(&id);
            let result = match outcome {
                Ok(resp) => resp.result,
                Err(e) => Err(e),
            };
            self.outbound.push(Message::Response(Response { id, result }));
            proof {
                assert(self@.outbound =~= old(self)@.outbound.push(
                    response_msg(id, outcome_view(outcome)),
                ));
                assert(self@ =~= spec_complete(old(self)@, id, token, outcome_view(outcome)).0);
            }
            true
        } else {
            proof {
                assert(self@ =~= old(self)@);
            }
            false
        }
    }

    /// Reports that one notification operation finished; its outcome has
    /// no reply channel, so the caller discards it either way.
    pub fn complete_notification(&mut self)
        requires
            inv(old(self)@),
            old(self)@.notifications > 0,
        ensures
            inv(final(self)@),
            final(self)@ == spec_note_done(old(self)@),
    {
        self.notifications = self.notifications - 1;
        proof {
            assert(self@ =~= spec_note_done(old(self)@));
        }
    }

    /// Hands out the next response to send, oldest first, or nothing.
    pub fn pop_outbound(&mut self) -> (r: Option<Message>)
        requires
            inv(old(self)@),
        ensures
            inv(final(self)@),
            old(self)@.outbound.len() == 0 ==> r is None && final(self)@ == old(self)@,
            old(self)@.outbound.len() > 0 ==> (r matches Some(x) && x@ == old(self)@.outbound[0]
                && final(self)@ == (ProtocolView {
                outbound: old(self)@.outbound.skip(1),
                ..old(self)@
            })),
    {
        if self.outbound.len() == 0 {
            proof {
                assert(self@ =~= old(self)@);
            }
            None
        } else {
            let msg = self.outbound.remove(0);
            proof {
                assert(self@.outbound =~= old(self)@.outbound.skip(1));
                assert(self@ =~= (ProtocolView { outbound: old(self)@.outbound.skip(1), ..old(
                    self,
                )@ }));
            }
            Some(msg)
        }
    }

    /// Puts a message back at the front of the outbound queue: what the
    /// sink would not take is retried later, never dropped.
    pub fn push_front_outbound(&mut self, msg: Message)
        requires
            inv(old(self)@),
        ensures
            inv(final(self)@),
            final(self)@ == (ProtocolView {
                outbound: seq![msg@] + old(self)@.outbound,
                ..old(self)@
            }),
    {
        self.outbound.insert(0, msg);
        proof {
            assert(self@.outbound =~= seq![msg@] + old(self)@.outbound);
            assert(self@ =~= (ProtocolView { outbound: seq![msg@] + old(self)@.outbound, ..old(
                self,
            )@ }));
        }
    }

    /// How many dispatches this engine has made: the next request takes
    /// this as its token.
    pub fn dispatch_count(&self) -> (n: u64)
        ensures
            n == self@.next_token,
    {
        self.next_token
    }

    /// How many notification operations are running.
    pub fn notification_count(&self) -> (n: u64)
        ensures
            n == self@.notifications,
    {
        self.notifications
    }

    /// True when the connection owes nothing: no request in flight, no
    /// notification running, nothing queued. Stream closed and idle is a
    /// clean shutdown.
    pub fn is_idle(&self) -> (r: bool)
        ensures
            r == (self@.pending.len() == 0 && self@.notifications == 0 && self@.outbound.len()
                == 0),
    {
        self.pending.len() == 0 && self.notifications == 0 && self.outbound.len() == 0
    }
}

/// Dispatch isolation: with two requests of distinct ids in flight, the
/// second's completion is delivered — its response joins the queue and
/// the first stays pending, untouched, however long it runs.
pub proof fn lemma_dispatch_isolation(
    p: ProtocolView,
    id1: u32,
    id2: u32,
    outcome: Result<RespView, ValView>,
)
    requires
        inv(p),
        id1 != id2,
        p.next_token + 2 <= 0xffff_ffff_ffff_ffff,
    ensures
        ({
            let p1 = spec_dispatch(p, id1);
            let p2 = spec_dispatch(p1, id2);
            let (p3, delivered) = spec_complete(p2, id2, p1.next_token, outcome);
            &&& delivered
            &&& p3.outbound == p2.outbound.push(response_msg(id2, outcome))
            &&& p3.pending.contains_key(id1)
            &&& p3.pending[id1] == p.next_token
        }),
{
}

/// Id reuse: dispatching a request whose id is already in flight replaces
/// the entry with a fresh token, and the abandoned operation's eventual
/// completion — carrying the stale token — is not delivered under that
/// id, nor under any other.
pub proof fn lemma_id_reuse(
    p: ProtocolView,
    id: u32,
    stale: u64,
    outcome: Result<RespView, ValView>,
)
    requires
        inv(p),
        p.pending.contains_key(id),
        p.pending[id] == stale,
        p.next_token < 0xffff_ffff_ffff_ffff,
    ensures
        ({
            let p2 = spec_dispatch(p, id);
            &&& p2.pending[id] == p.next_token
            &&& spec_complete(p2, id, stale, outcome) == (p2, false)
        }),
{
    assert(stale < p.next_token);
}

} // verus!

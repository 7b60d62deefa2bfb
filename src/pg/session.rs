//! One connection's decisions: the startup exchange, simple queries, and
//! the three-message extended-query exchanges. The caller moves the bytes;
//! the session says what to send and when to hang up.
use vstd::prelude::*;
use crate::pg::catalog::{
    close_plan, close_reply, describe_plan, describe_reply, execute_plan, execute_reply,
    lookup_query, query_plan, startup_plan, startup_reply,
};
use crate::pg::codec::{message_bytes, write_response, MessageError, MAX_BODY_LEN};
use crate::pg::message::{response_payload, response_tag, ResponseMessage};
use crate::pg::request::{
    decode_request, request_event, RequestError, RequestMessage, RequestView, TAG_QUERY,
};
use crate::queries::{empty_query, products_query, simple_query};

verus! {

/// Where a connection stands.
#[derive(Clone, Copy, Debug, PartialEq, Eq, Structural)]
pub enum Phase {
    /// The startup message is next.
    Start,
    /// Requests are answered.
    Ready,
    /// After a Parse: a Describe is expected next.
    ParseAwaitingDescribe,
    /// After a Parse and one more message, which was a Describe or not: a
    /// Sync is expected next.
    ParseAwaitingSync { described: bool },
    /// After a Bind: an Execute is expected next.
    BindAwaitingExecute,
    /// After a Bind and one more message, which was an Execute or not: a
    /// Sync is expected next.
    BindAwaitingSync { executed: bool },
    /// After a Close: a Sync is expected next.
    CloseAwaitingSync,
    /// The connection is over.
    Closed,
}

/// What to do after a client message.
#[derive(Debug)]
pub enum Action {
    /// Send these messages, in order (possibly none), and keep the connection.
    Reply(Vec<ResponseMessage>),
    /// The client terminated: close without a reply.
    Quit,
    /// The request is not one this server knows: close without a reply.
    Reject,
}

/// An action, with its messages as a sequence.
pub enum Reaction {
    Send(Seq<ResponseMessage>),
    Quit,
    Reject,
}

impl View for Action {
    type V = Reaction;

    open spec fn view(&self) -> Reaction {
        match self {
            Action::Reply(p) => Reaction::Send(p@),
            Action::Quit => Reaction::Quit,
            Action::Reject => Reaction::Reject,
        }
    }
}

/// Nothing to send; the connection stays open.
pub open spec fn silent() -> Reaction {
    Reaction::Send(Seq::empty())
}

/// The next phase and the reaction to a decoded client message (or to a
/// message with an unknown tag).
pub open spec fn session_step(phase: Phase, ev: Result<RequestView, RequestError>) -> (
    Phase,
    Reaction,
) {
    match phase {
        Phase::Ready => match ev {
            Ok(RequestView::SimpleQuery(q)) => match query_plan(q) {
                Some(p) => (Phase::Ready, Reaction::Send(p)),
                None => (Phase::Closed, Reaction::Reject),
            },
            Ok(RequestView::Termination) => (Phase::Closed, Reaction::Quit),
            Ok(RequestView::Parse) => (Phase::ParseAwaitingDescribe, silent()),
            Ok(RequestView::Bind) => (Phase::BindAwaitingExecute, silent()),
            Ok(RequestView::Close) => (Phase::CloseAwaitingSync, silent()),
            _ => (Phase::Closed, Reaction::Reject),
        },
        Phase::ParseAwaitingDescribe => match ev {
            Ok(m) => (Phase::ParseAwaitingSync { described: m is Describe }, silent()),
            Err(_) => (Phase::Ready, silent()),
        },
        Phase::ParseAwaitingSync { described } => {
            if described && ev == Ok::<RequestView, RequestError>(RequestView::Sync) {
                (Phase::Ready, Reaction::Send(describe_plan()))
            } else {
                (Phase::Ready, silent())
            }
        },
        Phase::BindAwaitingExecute => match ev {
            Ok(m) => (Phase::BindAwaitingSync { executed: m is Execute }, silent()),
            Err(_) => (Phase::Ready, silent()),
        },
        Phase::BindAwaitingSync { executed } => {
            if executed && ev == Ok::<RequestView, RequestError>(RequestView::Sync) {
                (Phase::Ready, Reaction::Send(execute_plan()))
            } else {
                (Phase::Ready, silent())
            }
        },
        Phase::CloseAwaitingSync => {
            if ev == Ok::<RequestView, RequestError>(RequestView::Sync) {
                (Phase::Ready, Reaction::Send(close_plan()))
            } else {
                (Phase::Ready, silent())
            }
        },
        _ => (Phase::Closed, Reaction::Reject),
    }
}

/// The phase after the startup message and the answer to it, for a startup
/// body `body`: the body is read and not looked at.
pub open spec fn startup_step(body: Seq<u8>) -> (Phase, Seq<ResponseMessage>) {
    (Phase::Ready, startup_plan())
}

/// The bytes of a reply plan, message after message.
pub open spec fn plan_bytes(p: Seq<ResponseMessage>) -> Seq<u8>
    decreases p.len(),
{
    if p.len() == 0 {
        Seq::empty()
    } else {
        plan_bytes(p.drop_last()) + message_bytes(
            response_tag(p.last()),
            response_payload(p.last()),
        )
    }
}

/// Every body of the plan fits its length field.
pub open spec fn plan_fits(p: Seq<ResponseMessage>) -> bool {
    forall|i: int| 0 <= i < p.len() ==> response_payload(#[trigger] p[i]).len() <= MAX_BODY_LEN
}

/// Frames every message of a plan, in order. Fails when a body is too long
/// for its length field.
pub fn encode_plan(plan: &Vec<ResponseMessage>) -> (r: Result<Vec<u8>, MessageError>)
    ensures
        r is Ok <==> plan_fits(plan@),
        r matches Ok(b) ==> b@ == plan_bytes(plan@),
{
    let mut out: Vec<u8> = Vec::new();
    let mut i: usize = 0;
    while i < plan.len()
        invariant
            i <= plan@.len(),
            plan_fits(plan@.take(i as int)),
            out@ == plan_bytes(plan@.take(i as int)),
        decreases plan@.len() - i,
    {
        match write_response(&mut out, &plan[i]) {
            Ok(()) => {},
            Err(e) => {
                return Err(e);
            },
        }
        i = i + 1;
        assert(plan@.take(i as int).drop_last() =~= plan@.take(i - 1));
    }
    assert(plan@.take(i as int) =~= plan@);
    Ok(out)
}

fn is_sync(ev: &Result<RequestMessage, RequestError>) -> (r: bool)
    ensures
        r == (request_event(*ev) == Ok::<RequestView, RequestError>(RequestView::Sync)),
{
    match ev {
        Ok(RequestMessage::Sync) => true,
        _ => false,
    }
}

/// One connection's state.
pub struct Session {
    pub phase: Phase,
}

impl Session {
    /// A connection whose startup message is still to come.
    pub fn new() -> (s: Session)
        ensures
            s.phase == Phase::Start,
    {
        Session { phase: Phase::Start }
    }

    /// Answers the startup message, whatever it holds: authentication
    /// succeeded, ready for queries.
    pub fn on_startup(&mut self, body: &[u8]) -> (plan: Vec<ResponseMessage>)
        requires
            old(self).phase == Phase::Start,
        ensures
            (final(self).phase, plan@) == startup_step(body@),
    {
        self.phase = Phase::Ready;
        startup_reply()
    }

    /// Handles one decoded client message, or one whose tag is unknown.
    pub fn step(&mut self, ev: &Result<RequestMessage, RequestError>) -> (a: Action)
        requires
            old(self).phase != Phase::Start,
            old(self).phase != Phase::Closed,
        ensures
            (final(self).phase, a@) == session_step(old(self).phase, request_event(*ev)),
    {
        match self.phase {
            Phase::Ready => match ev {
                Ok(RequestMessage::SimpleQuery(q)) => match lookup_query(q.as_slice()) {
                    Some(p) => Action::Reply(p),
                    None => {
                        self.phase = Phase::Closed;
                        Action::Reject
                    },
                },
                Ok(RequestMessage::Termination) => {
                    self.phase = Phase::Closed;
                    Action::Quit
                },
                Ok(RequestMessage::Parse) => {
                    self.phase = Phase::ParseAwaitingDescribe;
                    Action::Reply(Vec::new())
                },
                Ok(RequestMessage::Bind) => {
                    self.phase = Phase::BindAwaitingExecute;
                    Action::Reply(Vec::new())
                },
                Ok(RequestMessage::Close) => {
                    self.phase = Phase::CloseAwaitingSync;
                    Action::Reply(Vec::new())
                },
                _ => {
                    self.phase = Phase::Closed;
                    Action::Reject
                },
            },
            Phase::ParseAwaitingDescribe => {
                match ev {
                    Ok(m) => {
                        let described = match m {
                            RequestMessage::Describe => true,
                            _ => false,
                        };
                        self.phase = Phase::ParseAwaitingSync { described };
                    },
                    Err(_) => {
                        self.phase = Phase::Ready;
                    },
                }
                Action::Reply(Vec::new())
            },
            Phase::ParseAwaitingSync { described } => {
                self.phase = Phase::Ready;
                if described && is_sync(ev) {
                    Action::Reply(describe_reply())
                } else {
                    Action::Reply(Vec::new())
                }
            },
            Phase::BindAwaitingExecute => {
                match ev {
                    Ok(m) => {
                        let executed = match m {
                            RequestMessage::Execute => true,
                            _ => false,
                        };
                        self.phase = Phase::BindAwaitingSync { executed };
                    },
                    Err(_) => {
                        self.phase = Phase::Ready;
                    },
                }
                Action::Reply(Vec::new())
            },
            Phase::BindAwaitingSync { executed } => {
                self.phase = Phase::Ready;
                if executed && is_sync(ev) {
                    Action::Reply(execute_reply())
                } else {
                    Action::Reply(Vec::new())
                }
            },
            Phase::CloseAwaitingSync => {
                self.phase = Phase::Ready;
                if is_sync(ev) {
                    Action::Reply(close_reply())
                } else {
                    Action::Reply(Vec::new())
                }
            },
            _ => {
                self.phase = Phase::Closed;
                Action::Reject
            },
        }
    }

    /// Handles one client message given by its tag and body.
    pub fn on_message(&mut self, tag: u8, body: &[u8]) -> (a: Action)
        requires
            old(self).phase != Phase::Start,
            old(self).phase != Phase::Closed,
        ensures
            (final(self).phase, a@) == session_step(old(self).phase, decode_request(tag, body@)),
    {
        let ev = RequestMessage::decode(tag, body);
        self.step(&ev)
    }
}

/// The startup exchange sends exactly two messages, authentication OK then
/// ready-for-query, whatever the startup message holds, and leaves the
/// connection ready.
pub proof fn lemma_startup(body: Seq<u8>)
    ensures
        ({
            let (next, sent) = startup_step(body);
            &&& next == Phase::Ready
            &&& sent.len() == 2
            &&& sent[0] == ResponseMessage::AuthRequestOK
            &&& sent[1] == ResponseMessage::ReadyForQuery
        }),
{
}

/// Parse is answered only when Describe and then Sync follow it; in every
/// other order the three messages get no answer at all and the connection
/// waits for the next message. (A message with an unknown tag right after
/// Parse ends the exchange at once.)
pub proof fn lemma_parse_exchange(
    first: RequestView,
    second: Result<RequestView, RequestError>,
)
    ensures
        ({
            let (p1, r1) = session_step(Phase::Ready, Ok(RequestView::Parse));
            let (p2, r2) = session_step(p1, Ok(first));
            let (p3, r3) = session_step(p2, second);
            &&& r1 == silent() && r2 == silent()
            &&& p3 == Phase::Ready
            &&& r3 == if first == RequestView::Describe && second
                == Ok::<RequestView, RequestError>(RequestView::Sync) {
                Reaction::Send(describe_plan())
            } else {
                silent()
            }
        }),
{
}

/// Bind is answered only when Execute and then Sync follow it; in every
/// other order the three messages get no answer at all and the connection
/// waits for the next message.
pub proof fn lemma_bind_exchange(
    first: RequestView,
    second: Result<RequestView, RequestError>,
)
    ensures
        ({
            let (p1, r1) = session_step(Phase::Ready, Ok(RequestView::Bind));
            let (p2, r2) = session_step(p1, Ok(first));
            let (p3, r3) = session_step(p2, second);
            &&& r1 == silent() && r2 == silent()
            &&& p3 == Phase::Ready
            &&& r3 == if first == RequestView::Execute && second
                == Ok::<RequestView, RequestError>(RequestView::Sync) {
                Reaction::Send(execute_plan())
            } else {
                silent()
            }
        }),
{
}

/// Close is answered only when Sync follows it; otherwise the two messages
/// get no answer and the connection waits for the next message.
pub proof fn lemma_close_exchange(next: Result<RequestView, RequestError>)
    ensures
        ({
            let (p1, r1) = session_step(Phase::Ready, Ok(RequestView::Close));
            let (p2, r2) = session_step(p1, next);
            &&& r1 == silent()
            &&& p2 == Phase::Ready
            &&& r2 == if next == Ok::<RequestView, RequestError>(RequestView::Sync) {
                Reaction::Send(close_plan())
            } else {
                silent()
            }
        }),
{
}

/// A simple query whose text is not in the table gets no reply at all: the
/// request is rejected and the connection closed.
pub proof fn lemma_unknown_query_rejected(q: Seq<u8>)
    requires
        q != empty_query(),
        q != simple_query(),
        q != products_query(),
    ensures
        session_step(Phase::Ready, decode_request(TAG_QUERY, q.push(0))) == (
            Phase::Closed,
            Reaction::Reject,
        ),
{
    assert(q.push(0).drop_last() =~= q);
}

} // verus!

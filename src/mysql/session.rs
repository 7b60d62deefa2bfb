//! One connection's decisions: the handshake, then one reply plan per
//! command. The caller moves the bytes; the session says what to send and
//! when to hang up.
use vstd::prelude::*;
use crate::mysql::catalog::{
    execute_plan, lookup_execute, lookup_prepare, lookup_query, prepare_plan, query_plan,
};
use crate::mysql::codec::{frame_bytes, write_frame};
use crate::mysql::command::{decode_command, Command, CommandView, COM_QUERY};
use crate::mysql::packet::{lemma_payload_fits, packet_payload, Packet};
use crate::queries::{products_query, simple_query};

verus! {

/// A packet to send and its sequence number.
#[derive(Clone, Copy, Debug, PartialEq, Eq, Structural)]
pub struct Outgoing {
    pub packet: Packet,
    pub seq: u8,
}

/// Where a connection stands.
#[derive(Clone, Copy, Debug, PartialEq, Eq, Structural)]
pub enum Phase {
    /// Nothing sent yet.
    Start,
    /// Greeting sent; the client's authentication response is next.
    AwaitingAuth,
    /// Authenticated; commands are answered.
    Ready,
    /// The connection is over.
    Closed,
}

/// What to do after a client packet.
#[derive(Debug)]
pub enum Action {
    /// Send these packets, in order, and keep the connection.
    Reply(Vec<Outgoing>),
    /// The client quit: close without a reply.
    Quit,
    /// The request is not one this server knows: close without a reply.
    Reject,
}

/// An action, with its packets as a sequence.
pub enum Reaction {
    Send(Seq<Outgoing>),
    Quit,
    Reject,
}

impl View for Action {
    type V = Reaction;

    open spec fn view(&self) -> Reaction {
        match self {
            Action::Reply(p) => Reaction::Send(p@),
            Action::Quit => Reaction::Quit,
            Action::Reject => Reaction::Reject,
        }
    }
}

/// A reply plan numbered from 1: a command resets the sequence, and the
/// client's command was packet 0.
pub open spec fn numbered(p: Seq<Packet>) -> Seq<Outgoing> {
    Seq::new(p.len(), |i: int| Outgoing { packet: p[i], seq: (i + 1) as u8 })
}

/// The first packet of a connection.
pub open spec fn greeting_plan() -> Seq<Outgoing> {
    seq![Outgoing { packet: Packet::Greeting, seq: 0 }]
}

/// The answer to the client's authentication response (packet 1).
pub open spec fn auth_plan() -> Seq<Outgoing> {
    seq![Outgoing { packet: Packet::AuthSuccess, seq: 2 }, Outgoing { packet: Packet::OK, seq: 3 }]
}

/// A reply from the table, or a rejection when the table has none.
pub open spec fn planned(p: Option<Seq<Packet>>) -> Reaction {
    match p {
        Some(p) => Reaction::Send(numbered(p)),
        None => Reaction::Reject,
    }
}

/// What the server does with a command.
pub open spec fn command_reaction(c: CommandView) -> Reaction {
    match c {
        CommandView::Ping => Reaction::Send(numbered(seq![Packet::OK])),
        CommandView::Quit => Reaction::Quit,
        CommandView::Query(q) => planned(query_plan(q)),
        CommandView::PrepareStmt(q) => planned(prepare_plan(q)),
        CommandView::CloseStmt(_) => Reaction::Send(Seq::empty()),
        CommandView::ExecuteStmt(id, _, _) => planned(execute_plan(id)),
    }
}

/// What the server does with a command payload.
pub open spec fn payload_reaction(d: Seq<u8>) -> Reaction {
    match decode_command(d) {
        Ok(c) => command_reaction(c),
        Err(_) => Reaction::Reject,
    }
}

/// The next phase and the reaction to a client packet.
pub open spec fn session_step(phase: Phase, d: Seq<u8>) -> (Phase, Reaction) {
    match phase {
        Phase::AwaitingAuth => (Phase::Ready, Reaction::Send(auth_plan())),
        Phase::Ready => {
            let r = payload_reaction(d);
            (if r is Send { Phase::Ready } else { Phase::Closed }, r)
        },
        _ => (Phase::Closed, Reaction::Reject),
    }
}

/// The bytes of a reply plan, packet after packet.
pub open spec fn plan_bytes(p: Seq<Outgoing>) -> Seq<u8>
    decreases p.len(),
{
    if p.len() == 0 {
        Seq::empty()
    } else {
        plan_bytes(p.drop_last()) + frame_bytes(packet_payload(p.last().packet), p.last().seq)
    }
}

fn number(p: Vec<Packet>) -> (r: Vec<Outgoing>)
    requires
        p@.len() < 256,
    ensures
        r@ == numbered(p@),
{
    let mut r: Vec<Outgoing> = Vec::new();
    let mut i: usize = 0;
    while i < p.len()
        invariant
            i <= p@.len() < 256,
            r@ == numbered(p@).take(i as int),
        decreases p@.len() - i,
    {
        r.push(Outgoing { packet: p[i], seq: (i + 1) as u8 });
        i = i + 1;
        assert(r@ =~= numbered(p@).take(i as int));
    }
    assert(numbered(p@).take(i as int) =~= numbered(p@));
    r
}

fn planned_action(p: Option<Vec<Packet>>) -> (a: Action)
    requires
        p matches Some(v) ==> v@.len() < 256,
    ensures
        a@ == planned(
            match p {
                Some(v) => Some(v@),
                None => None,
            },
        ),
{
    match p {
        Some(v) => Action::Reply(number(v)),
        None => Action::Reject,
    }
}

/// Decides the reply to a decoded command.
pub fn respond(cmd: &Command) -> (a: Action)
    ensures
        a@ == command_reaction(cmd@),
{
    match cmd {
        Command::Ping => {
            let p = vec![Packet::OK];
            assert(p@ =~= seq![Packet::OK]);
            Action::Reply(number(p))
        },
        Command::Quit => Action::Quit,
        Command::Query(q) => planned_action(lookup_query(q.as_slice())),
        Command::PrepareStmt(q) => planned_action(lookup_prepare(q.as_slice())),
        Command::CloseStmt(_) => Action::Reply(Vec::new()),
        Command::ExecuteStmt(id, _, _) => planned_action(lookup_execute(*id)),
    }
}

/// Decides the reply to a command payload; one that does not decode is
/// rejected.
pub fn respond_to_payload(d: &[u8]) -> (a: Action)
    ensures
        a@ == payload_reaction(d@),
{
    match Command::parse(d) {
        Ok(c) => respond(&c),
        Err(_) => Action::Reject,
    }
}

/// Frames every packet of a plan, in order. Every payload of the catalog
/// fits in one packet, so this cannot fail.
pub fn encode_plan(plan: &Vec<Outgoing>) -> (r: Vec<u8>)
    ensures
        r@ == plan_bytes(plan@),
{
    let mut out: Vec<u8> = Vec::new();
    let mut i: usize = 0;
    while i < plan.len()
        invariant
            i <= plan@.len(),
            out@ == plan_bytes(plan@.take(i as int)),
        decreases plan@.len() - i,
    {
        let o = plan[i];
        let payload = o.packet.as_bytes();
        proof {
            lemma_payload_fits(o.packet);
        }
        let _ = write_frame(&mut out, payload.as_slice(), o.seq);
        i = i + 1;
        assert(plan@.take(i as int).drop_last() =~= plan@.take(i - 1));
    }
    assert(plan@.take(i as int) =~= plan@);
    out
}

/// One connection's state.
pub struct Session {
    pub phase: Phase,
}

impl Session {
    /// A connection on which nothing has been sent.
    pub fn new() -> (s: Session)
        ensures
            s.phase == Phase::Start,
    {
        Session { phase: Phase::Start }
    }

    /// Opens the handshake: the greeting, sequence number 0.
    pub fn greet(&mut self) -> (plan: Vec<Outgoing>)
        requires
            old(self).phase == Phase::Start,
        ensures
            final(self).phase == Phase::AwaitingAuth,
            plan@ == greeting_plan(),
    {
        self.phase = Phase::AwaitingAuth;
        let plan = vec![Outgoing { packet: Packet::Greeting, seq: 0 }];
        assert(plan@ =~= greeting_plan());
        plan
    }

    /// Handles one client packet: the authentication response, whatever it
    /// holds, and after it one command per packet.
    pub fn on_packet(&mut self, payload: &[u8]) -> (a: Action)
        requires
            old(self).phase == Phase::AwaitingAuth || old(self).phase == Phase::Ready,
        ensures
            (final(self).phase, a@) == session_step(old(self).phase, payload@),
    {
        if self.phase == Phase::AwaitingAuth {
            self.phase = Phase::Ready;
            let plan = vec![
                Outgoing { packet: Packet::AuthSuccess, seq: 2 },
                Outgoing { packet: Packet::OK, seq: 3 },
            ];
            assert(plan@ =~= auth_plan());
            Action::Reply(plan)
        } else {
            let a = respond_to_payload(payload);
            match a {
                Action::Reply(_) => {},
                _ => {
                    self.phase = Phase::Closed;
                },
            }
            a
        }
    }
}

/// The handshake sends exactly three packets, numbered 0, 2 and 3 (the
/// client's response is 1), whatever the client's authentication response
/// holds, and leaves the connection ready for commands.
pub proof fn lemma_handshake(auth: Seq<u8>)
    ensures
        ({
            let (next, r) = session_step(Phase::AwaitingAuth, auth);
            &&& next == Phase::Ready
            &&& r matches Reaction::Send(sent) && {
                let all = greeting_plan() + sent;
                &&& all.len() == 3
                &&& all[0].seq == 0 && all[1].seq == 2 && all[2].seq == 3
                &&& all[0].packet == Packet::Greeting
                &&& all[1].packet == Packet::AuthSuccess
                &&& all[2].packet == Packet::OK
            }
        }),
{
}

/// A query or prepare whose text is not in the table gets no reply at all:
/// the request is rejected and the connection closed.
pub proof fn lemma_unknown_query_rejected(q: Seq<u8>)
    requires
        q != simple_query(),
        q != products_query(),
    ensures
        session_step(Phase::Ready, seq![COM_QUERY] + q) == (Phase::Closed, Reaction::Reject),
        command_reaction(CommandView::PrepareStmt(q)) == Reaction::Reject,
{
    assert((seq![COM_QUERY] + q).drop_first() =~= q);
}

} // verus!

//! The dispatch engine: the connection's life cycle, the order of the
//! events sent on it, and what each inbound event leads to.

use crate::event::{Action, EventError, Log, ReceiveEvent, SendEvent};
use vstd::prelude::*;

verus! {

/// The stages of a connection.
#[derive(Debug, Clone, Copy, PartialEq, Eq, Structural)]
pub enum DispatchState {
    Unregistered,
    /// The registration event has been handed over.
    Registered,
    /// Inbound events are being consumed.
    Running,
    /// The connection has closed; what is pending still goes out.
    ShuttingDown,
    Terminated,
}

/// The diagnostic that follows registration.
pub const GREETING: &'static str = "plugin registered";

/// A registered connection: the events handed over for sending, in order.
pub struct Connection {
    state: DispatchState,
    pending: Vec<SendEvent>,
    sent: Ghost<Seq<SendEvent>>,
    uuid: Ghost<Seq<char>>,
}

/// What the caller is to do with one inbound event.
#[derive(Debug)]
pub enum Step {
    /// Perform the action that the key names, for the control `context`.
    Perform { action: Action, context: String },
    /// Nothing: the event is accepted and needs no work.
    Ignore,
    /// Report the error and go on with the next event.
    Report(EventError),
}

/// What an inbound outcome of the receive lane leads to. It depends on the
/// outcome alone.
pub open spec fn step_of(inbound: Result<Option<ReceiveEvent>, EventError>) -> Step {
    match inbound {
        Ok(Some(ReceiveEvent::KeyUp { action, context, .. })) => Step::Perform { action, context },
        Ok(_) => Step::Ignore,
        Err(e) => Step::Report(e),
    }
}

/// The connection's next state and step on one inbound outcome.
pub open spec fn ingest_next(state: DispatchState, inbound: Result<Option<ReceiveEvent>, EventError>) -> (
    DispatchState,
    Step,
) {
    (DispatchState::Running, step_of(inbound))
}

/// The state and the steps after taking `inbounds` one by one from `state`.
pub open spec fn ingest_trace(state: DispatchState, inbounds: Seq<Result<Option<ReceiveEvent>, EventError>>) -> (
    DispatchState,
    Seq<Step>,
)
    decreases inbounds.len(),
{
    if inbounds.len() == 0 {
        (state, Seq::empty())
    } else {
        let before = ingest_trace(state, inbounds.drop_last());
        let after = ingest_next(before.0, inbounds.last());
        (after.0, before.1.push(after.1))
    }
}

impl Connection {
    /// Every event handed over since registration, in order.
    pub closed spec fn sent(&self) -> Seq<SendEvent> {
        self.sent@
    }

    /// The events handed over and not yet taken for sending.
    pub closed spec fn pending(&self) -> Seq<SendEvent> {
        self.pending@
    }

    /// The identifier that the connection registered with.
    pub closed spec fn uuid(&self) -> Seq<char> {
        self.uuid@
    }

    pub closed spec fn state(&self) -> DispatchState {
        self.state
    }

    /// Registration comes first and only once, and what is pending is the
    /// latest part of what was sent.
    pub closed spec fn wf(&self) -> bool {
        &&& self.sent@.len() >= 1
        &&& self.sent@[0] matches SendEvent::RegisterPlugin { uuid } && uuid@ == self.uuid@
        &&& forall|i: int| 1 <= i < self.sent@.len() ==> !(#[trigger] self.sent@[i] is RegisterPlugin)
        &&& self.pending@.len() <= self.sent@.len()
        &&& self.pending@ == self.sent@.subrange(self.sent@.len() - self.pending@.len(), self.sent@.len() as int)
        &&& self.state != DispatchState::Unregistered
    }

    pub fn current_state(&self) -> (r: DispatchState)
        ensures
            r == self.state(),
    {
        self.state
    }

    /// Hands an event over for sending.
    pub fn send(&mut self, event: SendEvent)
        requires
            old(self).wf(),
            !(event is RegisterPlugin),
        ensures
            final(self).wf(),
            final(self).sent() == old(self).sent().push(event),
            final(self).pending() == old(self).pending().push(event),
            final(self).uuid() == old(self).uuid(),
            final(self).state() == old(self).state(),
    {
        proof {
            let s = self.sent@;
            let p = self.pending@;
            assert(p.push(event) =~= s.push(event).subrange(s.len() + 1 - (p.len() + 1), (s.len() + 1) as int));
        }
        self.sent = Ghost(self.sent@.push(event));
        self.pending.push(event);
    }

    /// Hands a diagnostic message over for the host's log.
    pub fn log(&mut self, msg: &str)
        requires
            old(self).wf(),
        ensures
            final(self).wf(),
            final(self).sent().len() == old(self).sent().len() + 1,
            final(self).sent().last() matches SendEvent::Log { payload } && payload.message@ == msg@,
            final(self).pending().len() == old(self).pending().len() + 1,
            final(self).pending().last() == final(self).sent().last(),
            final(self).pending().drop_last() == old(self).pending(),
            final(self).sent().drop_last() == old(self).sent(),
            final(self).uuid() == old(self).uuid(),
            final(self).state() == old(self).state(),
    {
        let event = SendEvent::Log { payload: Log { message: String::from_str(msg) } };
        self.send(event);
        proof {
            assert(self.pending@.drop_last() =~= old(self).pending@);
            assert(self.sent@.drop_last() =~= old(self).sent@);
        }
    }

    /// Takes the pending events, oldest first, for the send lane.
    pub fn take_pending(&mut self) -> (r: Vec<SendEvent>)
        requires
            old(self).wf(),
        ensures
            final(self).wf(),
            r@ == old(self).pending(),
            final(self).pending() == Seq::<SendEvent>::empty(),
            final(self).sent() == old(self).sent(),
            final(self).uuid() == old(self).uuid(),
            final(self).state() == old(self).state(),
    {
        let mut r: Vec<SendEvent> = Vec::new();
        std::mem::swap(&mut r, &mut self.pending);
        proof {
            assert(self.sent@.subrange(self.sent@.len() as int, self.sent@.len() as int) =~= Seq::<SendEvent>::empty());
        }
        r
    }

    /// What one inbound outcome leads to. Whatever it is, an error included,
    /// the connection goes on running and awaits the next one.
    pub fn ingest(&mut self, inbound: Result<Option<ReceiveEvent>, EventError>) -> (r: Step)
        requires
            old(self).wf(),
            old(self).state() == DispatchState::Registered || old(self).state() == DispatchState::Running,
        ensures
            final(self).wf(),
            r == step_of(inbound),
            (final(self).state(), r) == ingest_next(old(self).state(), inbound),
            final(self).state() == DispatchState::Running,
            final(self).sent() == old(self).sent(),
            final(self).pending() == old(self).pending(),
            final(self).uuid() == old(self).uuid(),
    {
        self.state = DispatchState::Running;
        match inbound {
            Ok(Some(ReceiveEvent::KeyUp { action, context, .. })) => Step::Perform { action, context },
            Ok(_) => Step::Ignore,
            Err(e) => Step::Report(e),
        }
    }

    /// The inbound side has closed: no more events will come.
    pub fn close(&mut self)
        requires
            old(self).wf(),
        ensures
            final(self).wf(),
            final(self).state() == if old(self).state() == DispatchState::Terminated {
                DispatchState::Terminated
            } else {
                DispatchState::ShuttingDown
            },
            final(self).sent() == old(self).sent(),
            final(self).pending() == old(self).pending(),
            final(self).uuid() == old(self).uuid(),
    {
        if self.state != DispatchState::Terminated {
            self.state = DispatchState::ShuttingDown;
        }
    }

    /// Ends a closed connection once nothing is pending; whether it ended.
    pub fn finish(&mut self) -> (r: bool)
        requires
            old(self).wf(),
            old(self).state() == DispatchState::ShuttingDown,
        ensures
            final(self).wf(),
            r == (old(self).pending().len() == 0),
            final(self).state() == if r {
                DispatchState::Terminated
            } else {
                DispatchState::ShuttingDown
            },
            final(self).sent() == old(self).sent(),
            final(self).pending() == old(self).pending(),
            final(self).uuid() == old(self).uuid(),
    {
        if self.pending.len() == 0 {
            self.state = DispatchState::Terminated;
            true
        } else {
            false
        }
    }
}

/// A connection that has registered with `uuid` and then handed over one
/// diagnostic message; both are pending, registration first.
pub fn initialize(uuid: &str) -> (c: Connection)
    ensures
        c.wf(),
        c.uuid() == uuid@,
        c.state() == DispatchState::Registered,
        c.sent().len() == 2,
        c.sent()[0] matches SendEvent::RegisterPlugin { uuid: u } && u@ == uuid@,
        c.sent()[1] is Log,
        c.pending() == c.sent(),
{
    let register = SendEvent::RegisterPlugin { uuid: String::from_str(uuid) };
    let ghost first = seq![register];
    let mut pending: Vec<SendEvent> = Vec::new();
    pending.push(register);
    let mut c = Connection {
        state: DispatchState::Registered,
        pending,
        sent: Ghost(first),
        uuid: Ghost(uuid@),
    };
    proof {
        assert(c.pending@ =~= c.sent@.subrange(0, 1));
    }
    c.log(GREETING);
    proof {
        assert(c.pending@ =~= c.sent@);
    }
    c
}

/// On a well-formed connection, the first event handed over is the
/// registration with the connection's identifier, and no later one is a
/// registration. Registration goes out as a binary frame and every later
/// event as a text frame (see `SendEvent::to_frame`).
pub proof fn lemma_registration_first(c: Connection)
    requires
        c.wf(),
    ensures
        c.sent()[0] matches SendEvent::RegisterPlugin { uuid } && uuid@ == c.uuid(),
        forall|i: int| 1 <= i < c.sent().len() ==> !(#[trigger] c.sent()[i] is RegisterPlugin),
{
}

/// Inbound outcomes are taken strictly in order and each on its own: over
/// any run of them, the step for each is the step for that outcome alone, so
/// a key release is performed whatever errors (an unknown action, a malformed
/// frame) came before it, and the connection is still running after the run.
pub proof fn lemma_ingest_sequence(state: DispatchState, inbounds: Seq<Result<Option<ReceiveEvent>, EventError>>)
    requires
        state == DispatchState::Registered || state == DispatchState::Running,
    ensures
        ingest_trace(state, inbounds).1.len() == inbounds.len(),
        forall|i: int| 0 <= i < inbounds.len() ==> #[trigger] ingest_trace(state, inbounds).1[i] == step_of(inbounds[i]),
        inbounds.len() > 0 ==> ingest_trace(state, inbounds).0 == DispatchState::Running,
    decreases inbounds.len(),
{
    if inbounds.len() > 0 {
        let rest = inbounds.drop_last();
        lemma_ingest_sequence(state, rest);
        let t = ingest_trace(state, inbounds);
        assert forall|i: int| 0 <= i < inbounds.len() implies #[trigger] ingest_trace(state, inbounds).1[i] == step_of(
            inbounds[i],
        ) by {
            if i < inbounds.len() - 1 {
                assert(ingest_trace(state, rest).1[i] == step_of(rest[i]));
                assert(rest[i] == inbounds[i]);
            }
        }
    }
}

} // verus!

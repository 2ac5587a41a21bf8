use vstd::prelude::*;
use crate::line::{trim_end, trim_line};

verus! {

/// The lifecycle of one session.
#[derive(Clone, Copy, Debug, PartialEq, Eq, Structural)]
pub enum SessionState {
    Connecting,
    Registering,
    Relaying,
    Draining,
    Terminated,
}

/// Why a session ended with an error.
#[derive(Clone, Copy, Debug, PartialEq, Eq, Structural)]
pub enum Failure {
    /// The transport could not be set up, read or written.
    Io,
    /// The registration handshake was rejected or broke off.
    Handshake,
    /// A line typed by the operator was rejected by the codec in strict mode.
    InvalidMessage,
}

/// What the server sent, as far as the relay cares.
#[derive(Clone, Copy, Debug, PartialEq, Eq, Structural)]
pub enum IncomingKind {
    /// A keep-alive probe.
    Ping,
    /// The terminal message: the server is closing the session.
    Error,
    /// Anything else.
    Other,
}

/// Something that happened outside the relay.
#[derive(Clone, Debug)]
pub enum Event {
    /// The transport is established.
    Connected,
    /// The transport could not be established.
    ConnectFailed,
    /// The handshake finished successfully.
    Registered,
    /// The handshake failed.
    RegisterFailed,
    /// The operator entered a line.
    InputLine(Vec<u8>),
    /// The input source has ended.
    InputClosed,
    /// The codec rejected the last line handed to it.
    Rejected,
    /// A message arrived from the server.
    Incoming(IncomingKind),
    /// Reading, writing or sending failed.
    IoFailed,
    /// The server closed the connection.
    Closed,
    /// The send-delay timer elapsed.
    TimerElapsed,
}

/// What the relay asks its driver to do next.
#[derive(Clone, Debug)]
pub enum Action {
    /// Nothing to do.
    Idle,
    /// Run the registration handshake.
    Register,
    /// Open the input gate and start relaying.
    Open,
    /// Write the synthetic welcome line, then open the input gate.
    OpenWithWelcome,
    /// Parse this line with the codec and queue the result.
    Submit(Vec<u8>),
    /// Report a rejected line and carry on.
    Report,
    /// Queue a quit message.
    Quit,
    /// Queue the reply to the keep-alive probe.
    Pong,
    /// Write the incoming message to the output.
    Write,
    /// Write the incoming message to the output; the session has ended well.
    WriteAndEnd,
    /// The session has ended well.
    End,
    /// The session has ended with this error.
    Fail(Failure),
}

/// `Event` with its line as a sequence.
pub ghost enum EventModel {
    Connected,
    ConnectFailed,
    Registered,
    RegisterFailed,
    InputLine(Seq<u8>),
    InputClosed,
    Rejected,
    Incoming(IncomingKind),
    IoFailed,
    Closed,
    TimerElapsed,
}

/// `Action` with its line as a sequence.
pub ghost enum ActionModel {
    Idle,
    Register,
    Open,
    OpenWithWelcome,
    Submit(Seq<u8>),
    Report,
    Quit,
    Pong,
    Write,
    WriteAndEnd,
    End,
    Fail(Failure),
}

impl View for Event {
    type V = EventModel;

    open spec fn view(&self) -> EventModel {
        match self {
            Event::Connected => EventModel::Connected,
            Event::ConnectFailed => EventModel::ConnectFailed,
            Event::Registered => EventModel::Registered,
            Event::RegisterFailed => EventModel::RegisterFailed,
            Event::InputLine(l) => EventModel::InputLine(l@),
            Event::InputClosed => EventModel::InputClosed,
            Event::Rejected => EventModel::Rejected,
            Event::Incoming(k) => EventModel::Incoming(*k),
            Event::IoFailed => EventModel::IoFailed,
            Event::Closed => EventModel::Closed,
            Event::TimerElapsed => EventModel::TimerElapsed,
        }
    }
}

impl View for Action {
    type V = ActionModel;

    open spec fn view(&self) -> ActionModel {
        match self {
            Action::Idle => ActionModel::Idle,
            Action::Register => ActionModel::Register,
            Action::Open => ActionModel::Open,
            Action::OpenWithWelcome => ActionModel::OpenWithWelcome,
            Action::Submit(l) => ActionModel::Submit(l@),
            Action::Report => ActionModel::Report,
            Action::Quit => ActionModel::Quit,
            Action::Pong => ActionModel::Pong,
            Action::Write => ActionModel::Write,
            Action::WriteAndEnd => ActionModel::WriteAndEnd,
            Action::End => ActionModel::End,
            Action::Fail(f) => ActionModel::Fail(*f),
        }
    }
}

/// The relay's decisions: one state, and the two settings that shape it.
pub struct Relay {
    pub state: SessionState,
    /// Whether a registration handshake is configured.
    pub register: bool,
    /// Whether a line that the codec rejects ends the session.
    pub strict: bool,
}

/// Whether the session is past the handshake and before its end.
pub open spec fn is_live(s: SessionState) -> bool {
    s == SessionState::Relaying || s == SessionState::Draining
}

/// The transition table of the relay: the next state and the action to take,
/// for a relay in state `s` with the given settings and the event `e`.
pub open spec fn transition(s: SessionState, register: bool, strict: bool, e: EventModel) -> (
    SessionState,
    ActionModel,
) {
    match (s, e) {
        (SessionState::Terminated, _) => (s, ActionModel::Idle),
        (_, EventModel::IoFailed) => (SessionState::Terminated, ActionModel::Fail(Failure::Io)),
        (SessionState::Draining, EventModel::Closed) => (SessionState::Terminated, ActionModel::End),
        (_, EventModel::Closed) => (SessionState::Terminated, ActionModel::Fail(Failure::Io)),
        (SessionState::Connecting, EventModel::Connected) => if register {
            (SessionState::Registering, ActionModel::Register)
        } else {
            (SessionState::Relaying, ActionModel::Open)
        },
        (SessionState::Connecting, EventModel::ConnectFailed) => (
            SessionState::Terminated,
            ActionModel::Fail(Failure::Io),
        ),
        (SessionState::Registering, EventModel::Registered) => (
            SessionState::Relaying,
            ActionModel::OpenWithWelcome,
        ),
        (SessionState::Registering, EventModel::RegisterFailed) => (
            SessionState::Terminated,
            ActionModel::Fail(Failure::Handshake),
        ),
        (SessionState::Relaying, EventModel::InputLine(l)) => if trim_end(l).len() == 0 {
            (s, ActionModel::Idle)
        } else {
            (s, ActionModel::Submit(trim_end(l)))
        },
        (SessionState::Relaying, EventModel::InputClosed) => (
            SessionState::Draining,
            ActionModel::Quit,
        ),
        (SessionState::Relaying, EventModel::Rejected) => if strict {
            (SessionState::Terminated, ActionModel::Fail(Failure::InvalidMessage))
        } else {
            (s, ActionModel::Report)
        },
        (_, EventModel::Incoming(k)) => if !is_live(s) {
            (s, ActionModel::Idle)
        } else if k == IncomingKind::Ping {
            (s, ActionModel::Pong)
        } else if k == IncomingKind::Error {
            (SessionState::Terminated, ActionModel::WriteAndEnd)
        } else {
            (s, ActionModel::Write)
        },
        _ => (s, ActionModel::Idle),
    }
}

/// A keep-alive probe that arrives while the session is live is answered by
/// queueing a reply, and is never written to the output.
pub proof fn lemma_ping_answered(s: SessionState, register: bool, strict: bool)
    requires
        is_live(s),
    ensures
        transition(s, register, strict, EventModel::Incoming(IncomingKind::Ping)) == (
            s,
            ActionModel::Pong,
        ),
{
}

/// Connecting without a registration section always leads straight to
/// relaying, without a welcome line, whatever else the settings say.
pub proof fn lemma_plain_connect_relays(strict1: bool, strict2: bool)
    ensures
        transition(SessionState::Connecting, false, strict1, EventModel::Connected) == (
            SessionState::Relaying,
            ActionModel::Open,
        ),
        transition(SessionState::Connecting, false, strict1, EventModel::Connected).0
            == transition(SessionState::Connecting, false, strict2, EventModel::Connected).0,
{
}

/// A line that is empty once its trailing whitespace is gone is never handed
/// to the codec; any other line goes to it trimmed.
pub proof fn lemma_blank_line_ignored(s: SessionState, register: bool, strict: bool, l: Seq<u8>)
    ensures
        trim_end(l).len() == 0 ==> transition(s, register, strict, EventModel::InputLine(l)) == (
            s,
            ActionModel::Idle,
        ),
        trim_end(l).len() > 0 && s == SessionState::Relaying ==> transition(
            s,
            register,
            strict,
            EventModel::InputLine(l),
        ) == (s, ActionModel::Submit(trim_end(l))),
{
}

/// The end of input queues a quit and starts draining; a draining session
/// reads no more input and ends well when the server's terminal message comes
/// or the server closes the connection.
pub proof fn lemma_end_of_input_drains(register: bool, strict: bool, l: Seq<u8>)
    ensures
        transition(SessionState::Relaying, register, strict, EventModel::InputClosed) == (
            SessionState::Draining,
            ActionModel::Quit,
        ),
        transition(SessionState::Draining, register, strict, EventModel::InputLine(l)) == (
            SessionState::Draining,
            ActionModel::Idle,
        ),
        transition(
            SessionState::Draining,
            register,
            strict,
            EventModel::Incoming(IncomingKind::Error),
        ) == (SessionState::Terminated, ActionModel::WriteAndEnd),
        transition(SessionState::Draining, register, strict, EventModel::Closed) == (
            SessionState::Terminated,
            ActionModel::End,
        ),
{
}

/// In strict mode a rejected line ends the session with an error, and an
/// ended session takes no further input.
pub proof fn lemma_strict_rejection_fatal(register: bool, l: Seq<u8>)
    ensures
        transition(SessionState::Relaying, register, true, EventModel::Rejected) == (
            SessionState::Terminated,
            ActionModel::Fail(Failure::InvalidMessage),
        ),
        transition(SessionState::Terminated, register, true, EventModel::InputLine(l)) == (
            SessionState::Terminated,
            ActionModel::Idle,
        ),
{
}

/// Before relaying starts nothing is written, submitted or queued; a
/// successful handshake opens the session with the welcome line.
pub proof fn lemma_welcome_first(s: SessionState, strict: bool, e: EventModel)
    requires
        s == SessionState::Connecting || s == SessionState::Registering,
    ensures
        transition(s, true, strict, e).0 == SessionState::Relaying ==> s
            == SessionState::Registering && e == EventModel::Registered,
        s == SessionState::Registering && e == EventModel::Registered ==> transition(
            s,
            true,
            strict,
            e,
        ).1 == ActionModel::OpenWithWelcome,
        !(transition(s, true, strict, e).1 is Write),
        !(transition(s, true, strict, e).1 is WriteAndEnd),
        !(transition(s, true, strict, e).1 is Submit),
        !(transition(s, true, strict, e).1 is Pong),
        !(transition(s, true, strict, e).1 is Quit),
{
}

impl Relay {
    /// A relay about to connect.
    pub fn new(register: bool, strict: bool) -> (r: Relay)
        ensures
            r.state == SessionState::Connecting,
            r.register == register,
            r.strict == strict,
    {
        Relay { state: SessionState::Connecting, register, strict }
    }

    /// Whether input lines are still wanted.
    pub fn reads_input(&self) -> (r: bool)
        ensures
            r == (self.state == SessionState::Connecting || self.state == SessionState::Registering
                || self.state == SessionState::Relaying),
    {
        match self.state {
            SessionState::Connecting | SessionState::Registering | SessionState::Relaying => true,
            _ => false,
        }
    }

    /// Whether the session has ended.
    pub fn is_done(&self) -> (r: bool)
        ensures
            r == (self.state == SessionState::Terminated),
    {
        self.state == SessionState::Terminated
    }

    /// Takes one event: moves to the next state and says what to do.
    pub fn step(&mut self, e: Event) -> (a: Action)
        ensures
            final(self).register == old(self).register,
            final(self).strict == old(self).strict,
            (final(self).state, a@) == transition(
                old(self).state,
                old(self).register,
                old(self).strict,
                e@,
            ),
    {
        let s = self.state;
        if s == SessionState::Terminated {
            return Action::Idle;
        }
        match e {
            Event::IoFailed => {
                self.state = SessionState::Terminated;
                Action::Fail(Failure::Io)
            },
            Event::Connected => {
                if s != SessionState::Connecting {
                    Action::Idle
                } else if self.register {
                    self.state = SessionState::Registering;
                    Action::Register
                } else {
                    self.state = SessionState::Relaying;
                    Action::Open
                }
            },
            Event::ConnectFailed => {
                if s != SessionState::Connecting {
                    Action::Idle
                } else {
                    self.state = SessionState::Terminated;
                    Action::Fail(Failure::Io)
                }
            },
            Event::Registered => {
                if s != SessionState::Registering {
                    Action::Idle
                } else {
                    self.state = SessionState::Relaying;
                    Action::OpenWithWelcome
                }
            },
            Event::RegisterFailed => {
                if s != SessionState::Registering {
                    Action::Idle
                } else {
                    self.state = SessionState::Terminated;
                    Action::Fail(Failure::Handshake)
                }
            },
            Event::InputLine(l) => {
                if s != SessionState::Relaying {
                    Action::Idle
                } else {
                    let t = trim_line(l);
                    if t.len() == 0 {
                        Action::Idle
                    } else {
                        Action::Submit(t)
                    }
                }
            },
            Event::InputClosed => {
                if s != SessionState::Relaying {
                    Action::Idle
                } else {
                    self.state = SessionState::Draining;
                    Action::Quit
                }
            },
            Event::Rejected => {
                if s != SessionState::Relaying {
                    Action::Idle
                } else if self.strict {
                    self.state = SessionState::Terminated;
                    Action::Fail(Failure::InvalidMessage)
                } else {
                    Action::Report
                }
            },
            Event::Incoming(k) => {
                if s != SessionState::Relaying && s != SessionState::Draining {
                    Action::Idle
                } else {
                    match k {
                        IncomingKind::Ping => Action::Pong,
                        IncomingKind::Error => {
                            self.state = SessionState::Terminated;
                            Action::WriteAndEnd
                        },
                        IncomingKind::Other => Action::Write,
                    }
                }
            },
            Event::Closed => {
                self.state = SessionState::Terminated;
                if s == SessionState::Draining {
                    Action::End
                } else {
                    Action::Fail(Failure::Io)
                }
            },
            Event::TimerElapsed => Action::Idle,
        }
    }
}

} // verus!

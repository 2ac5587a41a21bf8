use rawirc::relay::{Action, Event, Failure, IncomingKind, Relay, SessionState};

fn live(register: bool, strict: bool) -> Relay {
    let mut r = Relay::new(register, strict);
    match r.step(Event::Connected) {
        Action::Open => {}
        Action::Register => {
            assert!(matches!(r.step(Event::Registered), Action::OpenWithWelcome));
        }
        other => panic!("unexpected {:?}", other),
    }
    assert_eq!(r.state, SessionState::Relaying);
    r
}

#[test]
fn plain_connect_reaches_relaying_without_welcome() {
    for _ in 0..2 {
        let mut r = Relay::new(false, false);
        assert!(matches!(r.step(Event::Connected), Action::Open));
        assert_eq!(r.state, SessionState::Relaying);
    }
}

#[test]
fn typed_nick_is_submitted_verbatim() {
    let mut r = live(false, false);
    match r.step(Event::InputLine(b"NICK bob\r\n".to_vec())) {
        Action::Submit(l) => assert_eq!(l, b"NICK bob".to_vec()),
        other => panic!("unexpected {:?}", other),
    }
    assert!(matches!(r.step(Event::TimerElapsed), Action::Idle));
    assert_eq!(r.state, SessionState::Relaying);
}

#[test]
fn blank_lines_are_ignored() {
    let mut r = live(false, false);
    assert!(matches!(r.step(Event::InputLine(Vec::new())), Action::Idle));
    assert!(matches!(r.step(Event::InputLine(b" \t\r\n".to_vec())), Action::Idle));
    assert_eq!(r.state, SessionState::Relaying);
}

#[test]
fn ping_is_answered_not_written() {
    let mut r = live(false, false);
    assert!(matches!(r.step(Event::Incoming(IncomingKind::Ping)), Action::Pong));
    assert_eq!(r.state, SessionState::Relaying);
    assert!(matches!(r.step(Event::Incoming(IncomingKind::Other)), Action::Write));
}

#[test]
fn end_of_input_quits_and_drains() {
    let mut r = live(false, false);
    assert!(matches!(r.step(Event::InputClosed), Action::Quit));
    assert_eq!(r.state, SessionState::Draining);
    assert!(!r.reads_input());
    assert!(matches!(r.step(Event::InputLine(b"PRIVMSG x :y".to_vec())), Action::Idle));
    assert!(matches!(r.step(Event::Incoming(IncomingKind::Ping)), Action::Pong));
    assert!(matches!(r.step(Event::Incoming(IncomingKind::Error)), Action::WriteAndEnd));
    assert!(r.is_done());
}

#[test]
fn strict_rejection_is_fatal() {
    let mut r = live(false, true);
    assert!(matches!(r.step(Event::InputLine(b"\x00bad".to_vec())), Action::Submit(_)));
    assert!(matches!(r.step(Event::Rejected), Action::Fail(Failure::InvalidMessage)));
    assert!(r.is_done());
    assert!(matches!(r.step(Event::InputLine(b"NICK bob".to_vec())), Action::Idle));
}

#[test]
fn lax_rejection_is_reported() {
    let mut r = live(false, false);
    assert!(matches!(r.step(Event::Rejected), Action::Report));
    assert_eq!(r.state, SessionState::Relaying);
}

#[test]
fn registration_opens_with_welcome() {
    let mut r = Relay::new(true, false);
    assert!(matches!(r.step(Event::Incoming(IncomingKind::Other)), Action::Idle));
    assert!(matches!(r.step(Event::Connected), Action::Register));
    assert_eq!(r.state, SessionState::Registering);
    assert!(matches!(r.step(Event::InputLine(b"NICK bob".to_vec())), Action::Idle));
    assert!(matches!(r.step(Event::Registered), Action::OpenWithWelcome));
    assert_eq!(r.state, SessionState::Relaying);
}

#[test]
fn failures_terminate() {
    let mut r = Relay::new(false, false);
    assert!(matches!(r.step(Event::ConnectFailed), Action::Fail(Failure::Io)));
    assert!(r.is_done());
    let mut r = Relay::new(true, false);
    r.step(Event::Connected);
    assert!(matches!(r.step(Event::RegisterFailed), Action::Fail(Failure::Handshake)));
    let mut r = live(false, false);
    assert!(matches!(r.step(Event::IoFailed), Action::Fail(Failure::Io)));
    assert!(matches!(r.step(Event::Connected), Action::Idle));
    assert_eq!(r.state, SessionState::Terminated);
}

#[test]
fn close_after_quit_ends_well() {
    let mut r = live(false, false);
    assert!(matches!(r.step(Event::InputClosed), Action::Quit));
    assert!(matches!(r.step(Event::Closed), Action::End));
    assert!(r.is_done());
    let mut r = live(false, false);
    assert!(matches!(r.step(Event::Closed), Action::Fail(Failure::Io)));
    assert!(r.is_done());
}

#![allow(deprecated)]
use rawirc::args::{Args, Command, ConnOptions};
use rawirc::line::trim_line;
use rawirc::message::{classify, incoming_kind, pong_line, queue_quit, InFn, OutFn};
use rawirc::outgoing::{Outgoing, Release};
use rawirc::relay::{IncomingKind, SessionState};
use vinezombie::ircmsg::{ClientMsg, ServerMsg};

fn wire(m: &ClientMsg<'static>) -> Vec<u8> {
    let mut buf = Vec::new();
    m.write_to(&mut buf).unwrap();
    buf
}

fn server(line: &str) -> ServerMsg<'static> {
    ServerMsg::parse(line.as_bytes().to_vec()).unwrap()
}

#[test]
fn trim_removes_trailing_whitespace_only() {
    assert_eq!(trim_line(b"  NICK bob \t\r\n".to_vec()), b"  NICK bob".to_vec());
    assert_eq!(trim_line(b"\r\n".to_vec()), Vec::<u8>::new());
    assert_eq!(trim_line(Vec::new()), Vec::<u8>::new());
}

#[test]
fn kinds_are_classified() {
    assert_eq!(classify(&b"PING".to_vec()), IncomingKind::Ping);
    assert_eq!(classify(&b"ERROR".to_vec()), IncomingKind::Error);
    assert_eq!(classify(&b"PRIVMSG".to_vec()), IncomingKind::Other);
    assert_eq!(classify(&b"001".to_vec()), IncomingKind::Other);
    assert_eq!(incoming_kind(&server("PING :abc")), IncomingKind::Ping);
    assert_eq!(incoming_kind(&server("ERROR :Closing link")), IncomingKind::Error);
}

#[test]
fn pong_echoes_probe_argument() {
    assert_eq!(pong_line(Some(b"abc".to_vec())), b"PONG :abc".to_vec());
    assert_eq!(pong_line(None), b"PONG".to_vec());
}

#[test]
fn ping_is_answered_with_pong_on_the_queue() {
    let mut q = Outgoing::new();
    assert!(rawirc::message::answer_ping(&server("PING :abc"), &mut q));
    match q.pop_ready() {
        Release::Send(m) => assert_eq!(wire(&m), b"PONG abc".to_vec()),
        _ => panic!("reply not released"),
    }
}

#[test]
fn privmsg_round_trips() {
    let mut q = Outgoing::new();
    assert!(InFn::Raw.parse(b"PRIVMSG #chan :hi".to_vec(), &mut q).is_ok());
    match q.pop_ready() {
        Release::Send(m) => assert_eq!(wire(&m), b"PRIVMSG #chan hi".to_vec()),
        _ => panic!("message not released"),
    }
    let mut buf = Vec::new();
    assert!(OutFn::Raw.write(&server(":a!b@c PRIVMSG #chan :hi there"), &mut buf));
    assert_eq!(buf, b":a!b@c PRIVMSG #chan :hi there\n".to_vec());
}

#[test]
fn queue_releases_in_arrival_order() {
    let mut q = Outgoing::new();
    assert!(q.is_idle());
    assert!(matches!(q.pop_ready(), Release::Empty));
    for l in ["NICK bob", "USER bob 0 * :Bob", "JOIN #chan"] {
        assert!(InFn::Raw.parse(l.as_bytes().to_vec(), &mut q).is_ok());
    }
    assert!(!q.is_idle());
    let mut out = Vec::new();
    while let Release::Send(m) = q.pop_ready() {
        out.push(wire(&m));
    }
    assert_eq!(
        out,
        vec![b"NICK bob".to_vec(), b"USER bob 0 * Bob".to_vec(), b"JOIN #chan".to_vec()]
    );
}

#[test]
fn invalid_line_is_rejected_and_not_queued() {
    let mut q = Outgoing::new();
    assert!(InFn::Raw.parse(b"PRIVMSG #chan :a\nb".to_vec(), &mut q).is_err());
    assert!(q.is_idle());
}

#[test]
fn quit_is_queued() {
    let mut q = Outgoing::new();
    queue_quit(&mut q);
    match q.pop_ready() {
        Release::Send(m) => assert_eq!(wire(&m), b"QUIT".to_vec()),
        _ => panic!("quit not released"),
    }
}

#[test]
fn default_command_has_no_registration() {
    let c = Command::default();
    assert_eq!(c, Command::Raw { register: None });
    assert_eq!(c.register_file(), None);
}

#[test]
fn args_shape_the_relay() {
    let conn = ConnOptions {
        tls: false,
        tls_noverify: false,
        client_cert: None,
        port: Some(6667),
        address: "irc.example.net".to_string(),
    };
    let args = Args {
        strict: true,
        history: None,
        verbose: false,
        conn,
        cmd: Command::Raw { register: Some("register.yml".to_string()) },
    };
    let r = args.relay();
    assert_eq!(r.state, SessionState::Connecting);
    assert!(r.register && r.strict);
    assert_eq!(args.cmd.register_file(), Some(&"register.yml".to_string()));
}

#[test]
fn write_appends_after_existing_output() {
    let mut buf = b"x\n".to_vec();
    assert!(OutFn::Raw.write(&server("ERROR :Closing link"), &mut buf));
    assert_eq!(buf, b"x\nERROR :Closing link\n".to_vec());
}

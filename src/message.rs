use vstd::prelude::*;
use vinezombie::error::ParseError;
use vinezombie::ircmsg::ServerMsg;
use crate::codec::{
    bare_command, client_msg_of, client_parses, kind_word, last_arg, last_arg_of, parse_client,
    quit_message, server_kind, server_line, server_write_to,
};
use crate::outgoing::Outgoing;
use crate::relay::IncomingKind;

verus! {

/// The command word of a keep-alive probe.
pub open spec fn ping_word() -> Seq<u8> {
    seq![0x50u8, 0x49u8, 0x4Eu8, 0x47u8]
}

/// The command word of the server's terminal message.
pub open spec fn error_word() -> Seq<u8> {
    seq![0x45u8, 0x52u8, 0x52u8, 0x4Fu8, 0x52u8]
}

/// How the relay treats a message of the given kind.
pub open spec fn kind_of(word: Seq<u8>) -> IncomingKind {
    if word == ping_word() {
        IncomingKind::Ping
    } else if word == error_word() {
        IncomingKind::Error
    } else {
        IncomingKind::Other
    }
}

/// The reply line to a probe whose last argument is `arg`.
pub open spec fn pong_of(arg: Seq<u8>) -> Seq<u8> {
    seq![0x50u8, 0x4Fu8, 0x4Eu8, 0x47u8, 0x20u8, 0x3Au8] + arg
}

/// The reply line to a probe without arguments.
pub open spec fn bare_pong() -> Seq<u8> {
    seq![0x50u8, 0x4Fu8, 0x4Eu8, 0x47u8]
}

/// The reply line to a probe whose last argument, if any, is `arg`.
pub open spec fn pong_reply(arg: Option<Seq<u8>>) -> Seq<u8> {
    match arg {
        Some(a) => pong_of(a),
        None => bare_pong(),
    }
}

/// The command word of the message that asks the server to end the session.
pub open spec fn quit_word() -> Seq<u8> {
    seq![0x51u8, 0x55u8, 0x49u8, 0x54u8]
}

/// Sorts a command word into the kinds the relay tells apart.
pub fn classify(word: &Vec<u8>) -> (r: IncomingKind)
    ensures
        r == kind_of(word@),
{
    let ping: Vec<u8> = vec![0x50u8, 0x49u8, 0x4Eu8, 0x47u8];
    let error: Vec<u8> = vec![0x45u8, 0x52u8, 0x52u8, 0x4Fu8, 0x52u8];
    assert(ping@ =~= ping_word());
    assert(error@ =~= error_word());
    if bytes_eq(word, &ping) {
        IncomingKind::Ping
    } else if bytes_eq(word, &error) {
        IncomingKind::Error
    } else {
        IncomingKind::Other
    }
}

/// Byte-wise equality of two buffers.
pub fn bytes_eq(a: &Vec<u8>, b: &Vec<u8>) -> (r: bool)
    ensures
        r == (a@ == b@),
{
    if a.len() != b.len() {
        return false;
    }
    let mut i: usize = 0;
    while i < a.len()
        invariant
            a@.len() == b@.len(),
            0 <= i <= a@.len(),
            forall|k: int| 0 <= k < i ==> a@[k] == b@[k],
        decreases a@.len() - i,
    {
        if a[i] != b[i] {
            return false;
        }
        i = i + 1;
    }
    assert(a@ =~= b@);
    true
}

/// How the relay treats an incoming message.
pub fn incoming_kind(msg: &ServerMsg<'static>) -> (r: IncomingKind)
    ensures
        r == kind_of(kind_word(*msg)),
{
    let word = server_kind(msg);
    classify(&word)
}

/// The reply line to a probe whose last argument, if any, is `arg`: the
/// argument goes back as the trailing parameter.
pub fn pong_line(arg: Option<Vec<u8>>) -> (r: Vec<u8>)
    ensures
        match arg {
            Some(a) => r@ == pong_of(a@),
            None => r@ == bare_pong(),
        },
{
    let mut r: Vec<u8> = vec![0x50u8, 0x4Fu8, 0x4Eu8, 0x47u8];
    match arg {
        Some(a) => {
            r.push(0x20u8);
            r.push(0x3Au8);
            let mut i: usize = 0;
            while i < a.len()
                invariant
                    0 <= i <= a@.len(),
                    r@ == seq![0x50u8, 0x4Fu8, 0x4Eu8, 0x47u8, 0x20u8, 0x3Au8] + a@.take(i as int),
                decreases a@.len() - i,
            {
                r.push(a[i]);
                i = i + 1;
                assert(a@.take(i as int) =~= a@.take(i - 1).push(a@[i - 1]));
            }
            assert(a@.take(a@.len() as int) =~= a@);
            r
        },
        None => {
            assert(r@ =~= bare_pong());
            r
        },
    }
}

/// Queues the reply to a keep-alive probe. Tells whether the reply was
/// accepted by the codec and queued.
pub fn answer_ping(msg: &ServerMsg<'static>, queue: &mut Outgoing) -> (r: bool)
    requires
        old(queue).wf(),
    ensures
        final(queue).wf(),
        final(queue).released() == old(queue).released(),
        r == client_parses(pong_reply(last_arg_of(*msg))),
        r ==> final(queue).arrived() == old(queue).arrived().push(
            client_msg_of(pong_reply(last_arg_of(*msg))),
        ),
        !r ==> final(queue).arrived() == old(queue).arrived(),
{
    let line = pong_line(last_arg(msg));
    InFn::Raw.parse(line, queue).is_ok()
}

/// Queues the message that asks the server to end the session, after
/// everything already queued.
pub fn queue_quit(queue: &mut Outgoing)
    requires
        old(queue).wf(),
    ensures
        final(queue).wf(),
        final(queue).released() == old(queue).released(),
        final(queue).arrived() == old(queue).arrived().push(bare_command(quit_word())),
        final(queue).pending() == old(queue).pending().push(bare_command(quit_word())),
{
    queue.push(quit_message());
}

/// How an operator's line becomes an outgoing message.
#[derive(Clone, Copy, Debug, PartialEq, Eq, Structural)]
pub enum InFn {
    /// The line is a raw protocol message.
    Raw,
}

impl InFn {
    /// Parses a line and, when the codec accepts it, queues the message.
    pub fn parse(&self, msg: Vec<u8>, queue: &mut Outgoing) -> (r: Result<(), ParseError>)
        requires
            old(queue).wf(),
        ensures
            final(queue).wf(),
            final(queue).released() == old(queue).released(),
            r is Ok <==> client_parses(msg@),
            r is Ok ==> final(queue).arrived() == old(queue).arrived().push(client_msg_of(msg@)),
            r is Err ==> final(queue).arrived() == old(queue).arrived(),
    {
        match self {
            InFn::Raw => {
                match parse_client(msg) {
                    Ok(m) => {
                        queue.push(m);
                        Ok(())
                    },
                    Err(e) => Err(e),
                }
            },
        }
    }
}

/// How an incoming message becomes output.
#[derive(Clone, Copy, Debug, PartialEq, Eq, Structural)]
pub enum OutFn {
    /// The message is written in its wire form.
    Raw,
}

impl OutFn {
    /// Appends the message's line, ended by a line feed, to the buffer. Tells
    /// whether the codec could write it.
    pub fn write(&self, msg: &ServerMsg<'static>, buf: &mut Vec<u8>) -> (r: bool)
        ensures
            r,
            final(buf)@ == old(buf)@ + server_line(*msg) + seq![0x0Au8],
    {
        match self {
            OutFn::Raw => {
                let ok = server_write_to(msg, buf);
                buf.push(0x0Au8);
                ok
            },
        }
    }
}

} // verus!

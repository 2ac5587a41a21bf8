use vstd::prelude::*;
use vinezombie::client::queue::Queue;
use vinezombie::error::ParseError;
use vinezombie::ircmsg::{ClientMsg, ServerMsg};

verus! {

#[verifier::external_type_specification]
#[verifier::external_body]
pub struct ExQueue(Queue);

#[verifier::external_type_specification]
#[verifier::external_body]
pub struct ExClientMsg<'a>(ClientMsg<'a>);

#[verifier::external_type_specification]
#[verifier::external_body]
pub struct ExServerMsg<'a>(ServerMsg<'a>);

#[verifier::external_type_specification]
#[verifier::external_body]
pub struct ExParseError(ParseError);

/// The messages waiting in a queue, oldest first.
pub uninterp spec fn queued(q: Queue) -> Seq<ClientMsg<'static>>;

/// Whether `ClientMsg::parse` accepts a line.
pub uninterp spec fn client_parses(line: Seq<u8>) -> bool;

/// The message that `ClientMsg::parse` makes of a line it accepts.
pub uninterp spec fn client_msg_of(line: Seq<u8>) -> ClientMsg<'static>;

/// The wire form of a server message, without a line ending.
pub uninterp spec fn server_line(m: ServerMsg<'static>) -> Seq<u8>;

/// The command word, or the three digits of a numeric reply, of a server message.
pub uninterp spec fn kind_word(m: ServerMsg<'static>) -> Seq<u8>;

/// The bytes of a server message's last argument, if it has one.
pub uninterp spec fn last_arg_of(m: ServerMsg<'static>) -> Option<Seq<u8>>;

/// The client message with this command word and neither tags nor arguments.
pub uninterp spec fn bare_command(word: Seq<u8>) -> ClientMsg<'static>;

/// Relies on `Queue::new`: a new queue holds no message.
#[verifier::external_body]
pub(crate) fn queue_new() -> (r: Queue)
    ensures
        queued(r) == Seq::<ClientMsg<'static>>::empty(),
{
    Queue::new()
}

/// Relies on `QueueEditGuard::push`: the message goes onto the back of the queue.
#[verifier::external_body]
pub(crate) fn queue_push(q: &mut Queue, m: ClientMsg<'static>)
    ensures
        queued(*final(q)) == queued(*old(q)).push(m),
{
    q.edit().push(m)
}

/// Relies on `Queue::pop`: it hands out the front message when the rate limit
/// allows it. Otherwise the queue is left as it was and the callback receives
/// the non-zero delay until the front message may go, or nothing when the
/// queue is empty. The delay comes back in nanoseconds.
#[verifier::external_body]
pub(crate) fn queue_pop(q: &mut Queue) -> (r: (Option<ClientMsg<'static>>, Option<u128>))
    ensures
        match r.0 {
            Some(m) => {
                &&& queued(*old(q)).len() > 0
                &&& m == queued(*old(q))[0]
                &&& queued(*final(q)) == queued(*old(q)).drop_first()
            },
            None => {
                &&& queued(*final(q)) == queued(*old(q))
                &&& match r.1 {
                    Some(d) => d > 0 && queued(*old(q)).len() > 0,
                    None => queued(*old(q)).len() == 0,
                }
            },
        },
{
    let mut wait = None;
    let m = q.pop(|d| wait = d.map(|d| d.as_nanos()));
    (m, wait)
}

/// Relies on `Queue::is_empty`: whether no message waits.
#[verifier::external_body]
pub(crate) fn queue_is_empty(q: &Queue) -> (r: bool)
    ensures
        r == (queued(*q).len() == 0),
{
    q.is_empty()
}

/// Relies on `ClientMsg::parse`: whether it accepts a line, and the message it
/// makes of it, depend on the bytes alone.
#[verifier::external_body]
pub(crate) fn parse_client(line: Vec<u8>) -> (r: Result<ClientMsg<'static>, ParseError>)
    ensures
        r is Ok <==> client_parses(line@),
        r is Ok ==> r->Ok_0 == client_msg_of(line@),
{
    ClientMsg::parse(line)
}

/// Relies on `ClientMsg::new` with the `QUIT` name: a quit message with no
/// tags and no arguments.
#[verifier::external_body]
pub(crate) fn quit_message() -> (r: ClientMsg<'static>)
    ensures
        r == bare_command(seq![0x51u8, 0x55u8, 0x49u8, 0x54u8]),
{
    ClientMsg::new(vinezombie::names::cmd::QUIT)
}

/// Relies on `ServerMsg::kind`, read through `Borrow<[u8]>`: the command word
/// or the three digits of a numeric reply.
#[verifier::external_body]
pub(crate) fn server_kind(msg: &ServerMsg<'static>) -> (r: Vec<u8>)
    ensures
        r@ == kind_word(*msg),
{
    let k: &[u8] = std::borrow::Borrow::borrow(&msg.kind);
    k.to_vec()
}

/// Relies on `Args::split_last`: the bytes of the message's last argument, if any.
#[verifier::external_body]
pub(crate) fn last_arg(msg: &ServerMsg<'static>) -> (r: Option<Vec<u8>>)
    ensures
        match r {
            Some(v) => last_arg_of(*msg) == Some(v@),
            None => last_arg_of(*msg) is None,
        },
{
    msg.args.split_last().1.map(|l| l.as_bytes().to_vec())
}

/// Relies on `ServerMsg::write_to`: appends the message's wire form, without a
/// line ending, to the buffer. Writing into a `Vec` does not fail.
#[verifier::external_body]
pub(crate) fn server_write_to(msg: &ServerMsg<'static>, buf: &mut Vec<u8>) -> (r: bool)
    ensures
        r,
        final(buf)@ == old(buf)@ + server_line(*msg),
{
    msg.write_to(buf).is_ok()
}

} // verus!

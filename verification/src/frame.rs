//! The frames of the local bus: text lines that end in CR LF. Outbound
//! frames are built here; an inbound line is sorted by its first token.

use crate::socket::unterminated;
use crate::text::{
    decimal, decimal_string, is_whitespace, lemma_trailing_space_does_not_count, split_whitespace,
    tokens,
};
use vstd::prelude::*;

verus! {

/// `SUB <subject> <client_id>`: asks the bus for the messages of a subject.
pub open spec fn sub_frame(subject: Seq<char>, client_id: Seq<char>) -> Seq<char> {
    "SUB "@ + subject + " "@ + client_id + "\r\n"@
}

/// `PUB <subject> <byte_len>`, then the payload on a line of its own. The
/// length counts the bytes of the payload in UTF-8.
pub open spec fn pub_frame(subject: Seq<char>, data: Seq<char>) -> Seq<char> {
    "PUB "@ + subject + " "@ + decimal(vstd::utf8::encode_utf8(data).len()) + "\r\n"@ + data
        + "\r\n"@
}

/// The keep-alive probe.
pub open spec fn ping_frame() -> Seq<char> {
    "PING\r\n"@
}

/// The answer to a keep-alive probe.
pub open spec fn pong_frame() -> Seq<char> {
    "PONG\r\n"@
}

/// Tells the bus that the client leaves.
pub open spec fn exit_frame() -> Seq<char> {
    "EXIT\r\n"@
}

/// An inbound line, as the subscriber tells them apart.
#[derive(Debug, PartialEq, Eq)]
pub enum Inbound {
    /// A keep-alive probe: the first token is `PING`.
    Ping,
    /// The head of a message: `MSG` and three more tokens. The payload is
    /// the line that follows.
    Header { subject: String, my_id: String, sender_id: String },
    /// Anything else, a `MSG` line of another length too: to be passed over.
    Other,
}

/// `Inbound` as contracts see it: every text a sequence of characters.
pub enum InboundView {
    Ping,
    Header { subject: Seq<char>, my_id: Seq<char>, sender_id: Seq<char> },
    Other,
}

impl View for Inbound {
    type V = InboundView;

    open spec fn view(&self) -> InboundView {
        match *self {
            Inbound::Ping => InboundView::Ping,
            Inbound::Header { subject, my_id, sender_id } => InboundView::Header {
                subject: subject@,
                my_id: my_id@,
                sender_id: sender_id@,
            },
            Inbound::Other => InboundView::Other,
        }
    }
}

/// How a line is sorted: by its first whitespace-delimited token, and for
/// `MSG` by the number of tokens, which must be four.
pub open spec fn classified(line: Seq<char>) -> InboundView {
    let t = tokens(line);
    if t.len() == 0 {
        InboundView::Other
    } else if t[0] == "PING"@ {
        InboundView::Ping
    } else if t[0] == "MSG"@ && t.len() == 4 {
        InboundView::Header { subject: t[1], my_id: t[2], sender_id: t[3] }
    } else {
        InboundView::Other
    }
}

/// The second token of a handshake banner: the description that the bus
/// gives of itself, a JSON text. `None` where the line has no second token.
pub open spec fn banner_info(line: Seq<char>) -> Option<Seq<char>> {
    let t = tokens(line);
    if t.len() < 2 {
        None
    } else {
        Some(t[1])
    }
}

/// Builds a `SUB` frame.
pub fn encode_sub(subject: &str, client_id: &str) -> (frame: String)
    ensures
        frame@ == sub_frame(subject@, client_id@),
{
    let mut frame = "SUB ".to_owned();
    frame.append(subject);
    frame.append(" ");
    frame.append(client_id);
    frame.append("\r\n");
    frame
}

/// Builds a `PUB` frame.
pub fn encode_pub(subject: &str, data: &str) -> (frame: String)
    ensures
        frame@ == pub_frame(subject@, data@),
{
    let length = decimal_string(data.as_bytes().len());
    let mut frame = "PUB ".to_owned();
    frame.append(subject);
    frame.append(" ");
    frame.append(length.as_str());
    frame.append("\r\n");
    frame.append(data);
    frame.append("\r\n");
    frame
}

/// Builds a `PING` frame.
pub fn encode_ping() -> (frame: String)
    ensures
        frame@ == ping_frame(),
{
    "PING\r\n".to_owned()
}

/// Builds a `PONG` frame.
pub fn encode_pong() -> (frame: String)
    ensures
        frame@ == pong_frame(),
{
    "PONG\r\n".to_owned()
}

/// Builds an `EXIT` frame.
pub fn encode_exit() -> (frame: String)
    ensures
        frame@ == exit_frame(),
{
    "EXIT\r\n".to_owned()
}

/// Whether `token` reads `word`.
fn reads(token: &String, word: &str) -> (yes: bool)
    ensures
        yes == (token@ == word@),
{
    let word = word.to_owned();
    *token == word
}

/// Sorts an inbound line.
pub fn classify(line: &str) -> (out: Inbound)
    ensures
        out@ == classified(line@),
{
    let t = split_whitespace(line);
    assert(t.deep_view().len() == t.len());
    if t.len() == 0 {
        Inbound::Other
    } else {
        assert(t.deep_view()[0] == t[0]@);
        if reads(&t[0], "PING") {
            Inbound::Ping
        } else if reads(&t[0], "MSG") && t.len() == 4 {
            assert(t.deep_view()[1] == t[1]@);
            assert(t.deep_view()[2] == t[2]@);
            assert(t.deep_view()[3] == t[3]@);
            Inbound::Header {
                subject: t[1].clone(),
                my_id: t[2].clone(),
                sender_id: t[3].clone(),
            }
        } else {
            Inbound::Other
        }
    }
}

/// Picks the description out of a handshake banner.
pub fn read_banner_info(line: &str) -> (out: Option<String>)
    ensures
        out.deep_view() == banner_info(line@),
{
    let t = split_whitespace(line);
    assert(t.deep_view().len() == t.len());
    if t.len() < 2 {
        None
    } else {
        assert(t.deep_view()[1] == t[1]@);
        Some(t[1].clone())
    }
}

/// A line means the same with and without its terminator: it has the same
/// tokens, so it is sorted alike and names the same banner.
pub proof fn lemma_terminator_does_not_count(line: Seq<char>)
    ensures
        tokens(unterminated(line)) == tokens(line),
        classified(unterminated(line)) == classified(line),
        banner_info(unterminated(line)) == banner_info(line),
{
    assert(is_whitespace('\n'));
    assert(is_whitespace('\r'));
    let body = if line.len() > 0 && line.last() == '\n' {
        line.drop_last()
    } else {
        line
    };
    if line.len() > 0 && line.last() == '\n' {
        lemma_trailing_space_does_not_count(line);
    }
    if body.len() > 0 && body.last() == '\r' {
        lemma_trailing_space_does_not_count(body);
    }
}

} // verus!

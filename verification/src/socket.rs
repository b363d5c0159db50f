//! The life of a connection, without the connection: which callbacks are due
//! at each turn, what a line is once its terminator is gone, and when reads
//! and writes are refused. Whoever owns the stream reports what it did; the
//! `Link` answers with what the caller is to see.

use crate::text::to_chars;
use vstd::prelude::*;

verus! {

/// A turn in the life of a connection, for which the owner of the socket
/// may have something to do.
#[derive(Debug, Clone, Copy, PartialEq, Eq, Structural)]
pub enum Callback {
    /// The socket is set up.
    Initialized,
    /// The connection stands.
    Connected,
    /// The connection was lost.
    Disconnected,
    /// The host could not be reached.
    Unreachable,
}

/// Why a socket operation failed.
#[derive(Debug, Clone, Copy, PartialEq, Eq, Structural)]
pub enum Fault {
    /// There is no connection to read from.
    Disconnected,
    /// The bytes could not be written.
    Write,
}

/// `line` without its terminator: a line feed at the end is dropped, and a
/// carriage return before it.
pub open spec fn unterminated(line: Seq<char>) -> Seq<char> {
    let body = if line.len() > 0 && line.last() == '\n' {
        line.drop_last()
    } else {
        line
    };
    if body.len() > 0 && body.last() == '\r' {
        body.drop_last()
    } else {
        body
    }
}

/// Removes the terminator of a line.
pub fn strip_terminator(line: &str) -> (out: &str)
    ensures
        out@ == unterminated(line@),
{
    let chars = to_chars(line);
    let mut end = chars.len();
    if end > 0 && chars[end - 1] == '\n' {
        end -= 1;
    }
    if end > 0 && chars[end - 1] == '\r' {
        end -= 1;
    }
    assert(unterminated(line@) =~= line@.subrange(0, end as int));
    line.substring_char(0, end)
}

/// Whether a connection stands.
#[derive(Debug, PartialEq, Eq)]
pub struct Link {
    up: bool,
}

/// `Link` as contracts see it.
pub struct LinkView {
    pub up: bool,
}

impl View for Link {
    type V = LinkView;

    closed spec fn view(&self) -> LinkView {
        LinkView { up: self.up }
    }
}

/// The callbacks that an attempt to connect calls for: set up and connected
/// where it worked, unreachable where it did not.
pub open spec fn connect_callbacks(opened: bool) -> Seq<Callback> {
    if opened {
        seq![Callback::Initialized, Callback::Connected]
    } else {
        seq![Callback::Unreachable]
    }
}

/// What a read gives a caller that wants the line as it came: the line
/// where the connection stands and a line came, else the fault.
pub open spec fn raw_read_result(link: LinkView, read: Option<Seq<char>>) -> Result<
    Seq<char>,
    Fault,
> {
    match read {
        Some(line) if link.up => Ok(line),
        _ => Err(Fault::Disconnected),
    }
}

/// What a read gives its caller: the line without its terminator where the
/// connection stands and a line came, else the fault.
pub open spec fn read_result(link: LinkView, read: Option<Seq<char>>) -> Result<Seq<char>, Fault> {
    match raw_read_result(link, read) {
        Ok(line) => Ok(unterminated(line)),
        Err(fault) => Err(fault),
    }
}

/// What a write gives its caller: the number of bytes where the connection
/// stands and they were written, else the fault.
pub open spec fn write_result(link: LinkView, written: Option<usize>) -> Result<usize, Fault> {
    match written {
        Some(size) if link.up => Ok(size),
        _ => Err(Fault::Write),
    }
}

/// A link after it was taken down, and whether there was a connection to
/// close.
pub open spec fn disconnected(link: LinkView) -> (LinkView, bool) {
    (LinkView { up: false }, link.up)
}

impl Link {
    /// A link that was never up.
    pub fn new() -> (link: Link)
        ensures
            !link@.up,
    {
        Link { up: false }
    }

    /// Whether the connection stands.
    pub fn is_up(&self) -> (up: bool)
        ensures
            up == self@.up,
    {
        self.up
    }

    /// Takes the outcome of an attempt to connect and names the callbacks
    /// that are due, in their order.
    pub fn connect(&mut self, opened: bool) -> (calls: Vec<Callback>)
        ensures
            final(self)@.up == opened,
            calls@ == connect_callbacks(opened),
    {
        self.up = opened;
        let mut calls: Vec<Callback> = Vec::new();
        if opened {
            calls.push(Callback::Initialized);
            calls.push(Callback::Connected);
        } else {
            calls.push(Callback::Unreachable);
        }
        assert(calls@ =~= connect_callbacks(opened));
        calls
    }

    /// Takes what a read gave, `None` for a read that gave nothing, and says
    /// what a caller gets that wants the line as it came, terminator and
    /// all. A read that fails takes the link down and calls for the
    /// `Disconnected` callback.
    pub fn read_raw(&mut self, read: Option<String>) -> (out: (
        Result<String, Fault>,
        Option<Callback>,
    ))
        ensures
            match raw_read_result(old(self)@, read.deep_view()) {
                Ok(line) => out.0 is Ok && out.0->Ok_0@ == line && out.1 is None && final(self)@
                    == old(self)@,
                Err(fault) => out.0 is Err && out.0->Err_0 == fault && out.1 == Some(
                    Callback::Disconnected,
                ) && !final(self)@.up,
            },
    {
        match read {
            Some(line) if self.up => (Ok(line), None),
            _ => {
                self.up = false;
                (Err(Fault::Disconnected), Some(Callback::Disconnected))
            },
        }
    }

    /// Takes what a read gave, `None` for a read that gave nothing, and says
    /// what the caller gets: the line without its terminator. A read that
    /// fails takes the link down and calls for the `Disconnected` callback.
    pub fn readln(&mut self, read: Option<String>) -> (out: (Result<String, Fault>, Option<Callback>))
        ensures
            match read_result(old(self)@, read.deep_view()) {
                Ok(line) => out.0 is Ok && out.0->Ok_0@ == line && out.1 is None && final(self)@
                    == old(self)@,
                Err(fault) => out.0 is Err && out.0->Err_0 == fault && out.1 == Some(
                    Callback::Disconnected,
                ) && !final(self)@.up,
            },
    {
        match self.read_raw(read) {
            (Ok(line), callback) => (Ok(strip_terminator(line.as_str()).to_owned()), callback),
            (Err(fault), callback) => (Err(fault), callback),
        }
    }

    /// Takes what a write gave, `None` for a write that failed, and says what
    /// the caller gets.
    pub fn write(&self, written: Option<usize>) -> (out: Result<usize, Fault>)
        ensures
            out == write_result(self@, written),
    {
        match written {
            Some(size) if self.up => Ok(size),
            _ => Err(Fault::Write),
        }
    }

    /// Takes the link down and tells whether there was a connection to
    /// close.
    pub fn disconnect(&mut self) -> (close: bool)
        ensures
            (final(self)@, close) == disconnected(old(self)@),
    {
        let close = self.up;
        self.up = false;
        close
    }
}

/// What is sent as a line arrives as it was sent: the terminator goes, and
/// nothing else, whatever the text holds, whitespace at its ends too. After
/// a bare line feed the same holds of a text that does not end in a
/// carriage return.
pub proof fn lemma_terminator_is_all_that_goes(text: Seq<char>)
    ensures
        unterminated(text + seq!['\r', '\n']) == text,
        text.len() == 0 || text.last() != '\r' ==> unterminated(text + seq!['\n']) == text,
        text.len() == 0 || (text.last() != '\r' && text.last() != '\n') ==> unterminated(text)
            == text,
{
    let crlf = text + seq!['\r', '\n'];
    assert(crlf.drop_last() =~= text + seq!['\r']);
    assert(crlf.drop_last().drop_last() =~= text);
    let lf = text + seq!['\n'];
    assert(lf.drop_last() =~= text);
}

/// Disconnecting twice is disconnecting once: a link that was taken down
/// has nothing left to close, and stays down.
pub proof fn lemma_disconnect_is_idempotent(link: LinkView)
    ensures
        disconnected(disconnected(link).0) == (disconnected(link).0, false),
{
}

/// A link that is down refuses every read and every write.
pub proof fn lemma_down_link_refuses(link: LinkView, read: Option<Seq<char>>, written: Option<usize>)
    requires
        !link.up,
    ensures
        read_result(link, read) == Err::<Seq<char>, Fault>(Fault::Disconnected),
        write_result(link, written) == Err::<usize, Fault>(Fault::Write),
{
}

} // verus!

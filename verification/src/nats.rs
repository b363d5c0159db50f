//! The two clients of the local bus, without their sockets. A client never
//! reads or writes: it says what is to be done next (an `Action`), is told
//! how that went (an `Event`), and decides from there. Whoever owns the
//! connection performs the actions in a loop.

use crate::frame::{
    classified, classify, encode_exit, encode_ping, encode_pong, encode_pub, encode_sub,
    exit_frame, ping_frame, pong_frame, pub_frame, read_banner_info, sub_frame, banner_info,
    Inbound, InboundView,
};
use crate::json_text::{document_member, read_member};
use crate::subject::{lemma_unqualified_qualified, qualified, qualify, unqualified, unqualify};
use crate::socket::{lemma_terminator_is_all_that_goes, strip_terminator, unterminated};
use crate::text::tokens;
use vstd::prelude::*;

verus! {

/// How long a subscriber may take to connect, in seconds.
pub const SUBSCRIBE_TIMEOUT_SECS: u64 = 30;

/// How long a publisher may take to connect, in seconds.
pub const PUBLISH_TIMEOUT_SECS: u64 = 5;

/// How often a subscribe frame is written before the client gives up on it.
pub const SUBSCRIBE_ATTEMPTS: u32 = 3;

/// The unit of transfer between the buses.
#[derive(Debug, PartialEq, Eq)]
pub struct Message {
    /// The namespace of the client that received the message.
    pub root: String,
    /// The logical subject, without the namespace.
    pub subject: String,
    /// The identifier that the bus gave to the receiving client.
    pub my_id: String,
    /// The identifier of the client that published the message.
    pub sender_id: String,
    /// The payload: the line that followed the head of the message, as it
    /// was read but for its terminator.
    pub data: String,
}

/// `Message` as contracts see it: every text a sequence of characters.
pub struct MessageView {
    pub root: Seq<char>,
    pub subject: Seq<char>,
    pub my_id: Seq<char>,
    pub sender_id: Seq<char>,
    pub data: Seq<char>,
}

impl View for Message {
    type V = MessageView;

    open spec fn view(&self) -> MessageView {
        MessageView {
            root: self.root@,
            subject: self.subject@,
            my_id: self.my_id@,
            sender_id: self.sender_id@,
            data: self.data@,
        }
    }
}

/// What can go wrong, by the operation that failed.
#[derive(Debug, Clone, Copy, PartialEq, Eq, Structural)]
pub enum Error {
    /// The handshake did not yield a usable client.
    Initialize,
    /// A publish frame could not be written.
    Publish,
    /// A line could not be read while waiting for a message.
    Subscribe,
    /// A probe could not be written, or its answer not read.
    Ping,
    /// The leave notice could not be written.
    Exit,
}

/// How the action that a client asked for went.
#[derive(Debug, PartialEq, Eq)]
pub enum Event {
    /// A line was read: this is the line, with its terminator or without.
    Line(String),
    /// No line could be read.
    ReadFailed,
    /// The frame was written.
    Written,
    /// The frame could not be written.
    WriteFailed,
}

/// `Event` as contracts see it: every text a sequence of characters.
pub enum EventView {
    Line(Seq<char>),
    ReadFailed,
    Written,
    WriteFailed,
}

impl View for Event {
    type V = EventView;

    open spec fn view(&self) -> EventView {
        match *self {
            Event::Line(line) => EventView::Line(line@),
            Event::ReadFailed => EventView::ReadFailed,
            Event::Written => EventView::Written,
            Event::WriteFailed => EventView::WriteFailed,
        }
    }
}

/// What an operation yields when it succeeds.
#[derive(Debug, PartialEq, Eq)]
pub enum Reply {
    /// The subscription is in place.
    Subscribed,
    /// A message arrived.
    Message(Message),
    /// The line that answered a probe, as it was read.
    Pong(String),
    /// The frame is on the wire.
    Sent,
}

/// `Reply` as contracts see it: every text a sequence of characters.
pub enum ReplyView {
    Subscribed,
    Message(MessageView),
    Pong(Seq<char>),
    Sent,
}

impl View for Reply {
    type V = ReplyView;

    open spec fn view(&self) -> ReplyView {
        match *self {
            Reply::Subscribed => ReplyView::Subscribed,
            Reply::Message(message) => ReplyView::Message(message@),
            Reply::Pong(line) => ReplyView::Pong(line@),
            Reply::Sent => ReplyView::Sent,
        }
    }
}

/// What a client asks of the owner of its connection.
#[derive(Debug, PartialEq, Eq)]
pub enum Action {
    /// Nothing: no operation is under way.
    Idle,
    /// Read one line and report it.
    Read,
    /// Write these characters and report whether that worked.
    Write(String),
    /// The operation is over, with this result.
    Done(Result<Reply, Error>),
}

/// `Action` as contracts see it: every text a sequence of characters.
pub enum ActionView {
    Idle,
    Read,
    Write(Seq<char>),
    Done(Result<ReplyView, Error>),
}

impl View for Action {
    type V = ActionView;

    open spec fn view(&self) -> ActionView {
        match *self {
            Action::Idle => ActionView::Idle,
            Action::Read => ActionView::Read,
            Action::Write(frame) => ActionView::Write(frame@),
            Action::Done(Ok(reply)) => ActionView::Done(Ok(reply@)),
            Action::Done(Err(error)) => ActionView::Done(Err(error)),
        }
    }
}

/// What follows a subscribe frame once it is written.
#[derive(Debug, Clone, Copy, PartialEq, Eq, Structural)]
pub enum Resume {
    /// The subscription was asked for: report it.
    Report,
    /// A read had failed: report that failure.
    Fail,
    /// A keep-alive answer had failed: go on reading.
    Read,
}

/// Where a subscriber stands.
#[derive(Debug, PartialEq, Eq)]
pub enum Phase {
    /// No operation is under way.
    Idle,
    /// A subscribe frame is to be written, after so many writes of it that
    /// failed.
    Subscribing { resume: Resume, failures: u32 },
    /// A protocol line is to be read.
    AwaitingFrame,
    /// The head of a message was read, its payload line is to be read.
    AwaitingPayload { subject: String, my_id: String, sender_id: String },
    /// A keep-alive answer is to be written.
    Ponging,
    /// A probe is to be written.
    Pinging,
    /// The answer to a probe is to be read.
    AwaitingPong,
    /// A leave notice is to be written.
    Exiting,
}

/// `Phase` as contracts see it: every text a sequence of characters.
pub enum PhaseView {
    Idle,
    Subscribing { resume: Resume, failures: u32 },
    AwaitingFrame,
    AwaitingPayload { subject: Seq<char>, my_id: Seq<char>, sender_id: Seq<char> },
    Ponging,
    Pinging,
    AwaitingPong,
    Exiting,
}

impl View for Phase {
    type V = PhaseView;

    open spec fn view(&self) -> PhaseView {
        match *self {
            Phase::Idle => PhaseView::Idle,
            Phase::Subscribing { resume, failures } => PhaseView::Subscribing { resume, failures },
            Phase::AwaitingFrame => PhaseView::AwaitingFrame,
            Phase::AwaitingPayload { subject, my_id, sender_id } => PhaseView::AwaitingPayload {
                subject: subject@,
                my_id: my_id@,
                sender_id: sender_id@,
            },
            Phase::Ponging => PhaseView::Ponging,
            Phase::Pinging => PhaseView::Pinging,
            Phase::AwaitingPong => PhaseView::AwaitingPong,
            Phase::Exiting => PhaseView::Exiting,
        }
    }
}

/// The subscribe role: bound to one subject for as long as it lives.
#[derive(Debug, PartialEq, Eq)]
pub struct SubscribeClient {
    client_id: String,
    root: String,
    subject: String,
    phase: Phase,
}

/// `SubscribeClient` as contracts see it: every text a sequence of characters.
pub struct SubscribeClientView {
    pub client_id: Seq<char>,
    pub root: Seq<char>,
    pub subject: Seq<char>,
    pub phase: PhaseView,
}

impl View for SubscribeClient {
    type V = SubscribeClientView;

    closed spec fn view(&self) -> SubscribeClientView {
        SubscribeClientView {
            client_id: self.client_id@,
            root: self.root@,
            subject: self.subject@,
            phase: self.phase@,
        }
    }
}

/// The identifier that a handshake banner assigns: member `client_id` of the
/// JSON text that is the banner's second token. `None` where no banner was
/// read, where it has no second token, where that token is no JSON document,
/// or where the document has no such member.
pub open spec fn banner_client_id(banner: Option<Seq<char>>) -> Option<Seq<char>> {
    match banner {
        None => None,
        Some(line) => match banner_info(line) {
            None => None,
            Some(info) => document_member(info, "client_id"@),
        },
    }
}

/// The request that subscribes the client: its subject under its root, and
/// its identifier as the banner gave it.
pub open spec fn subscribe_request(c: SubscribeClientView) -> ActionView {
    ActionView::Write(sub_frame(qualified(c.root, c.subject), c.client_id))
}

/// The request that stands open in each phase.
pub open spec fn subscriber_pending(c: SubscribeClientView) -> ActionView {
    match c.phase {
        PhaseView::Idle => ActionView::Idle,
        PhaseView::Subscribing { .. } => subscribe_request(c),
        PhaseView::AwaitingFrame => ActionView::Read,
        PhaseView::AwaitingPayload { .. } => ActionView::Read,
        PhaseView::Ponging => ActionView::Write(pong_frame()),
        PhaseView::Pinging => ActionView::Write(ping_frame()),
        PhaseView::AwaitingPong => ActionView::Read,
        PhaseView::Exiting => ActionView::Write(exit_frame()),
    }
}

/// Where a subscriber starts to subscribe anew, and what it asks for.
pub open spec fn resubscribing(c: SubscribeClientView, resume: Resume) -> (PhaseView, ActionView) {
    (PhaseView::Subscribing { resume, failures: 0 }, subscribe_request(c))
}

/// What follows a subscribe frame that was written.
pub open spec fn subscribed(resume: Resume) -> (PhaseView, ActionView) {
    match resume {
        Resume::Report => (PhaseView::Idle, ActionView::Done(Ok(ReplyView::Subscribed))),
        Resume::Fail => (PhaseView::Idle, ActionView::Done(Err(Error::Subscribe))),
        Resume::Read => (PhaseView::AwaitingFrame, ActionView::Read),
    }
}

/// What follows a subscribe frame that could not be written, after
/// `failures` earlier failures: the frame once more while attempts are
/// left, else the end of the operation with the `Subscribe` error.
pub open spec fn unsubscribed(c: SubscribeClientView, resume: Resume, failures: u32) -> (
    PhaseView,
    ActionView,
) {
    if failures + 1 < SUBSCRIBE_ATTEMPTS {
        (PhaseView::Subscribing { resume, failures: (failures + 1) as u32 }, subscribe_request(c))
    } else {
        (PhaseView::Idle, ActionView::Done(Err(Error::Subscribe)))
    }
}

/// The subscriber's rules: the phase that follows phase `c.phase` on event
/// `e`, and the action that goes with it.
///
/// An event that does not answer the open request changes nothing: the
/// request is made again.
pub open spec fn subscriber_step(c: SubscribeClientView, e: EventView) -> (PhaseView, ActionView) {
    match (c.phase, e) {
        (PhaseView::Subscribing { resume, .. }, EventView::Written) => subscribed(resume),
        (PhaseView::Subscribing { resume, failures }, EventView::WriteFailed) => unsubscribed(
            c,
            resume,
            failures,
        ),
        (PhaseView::AwaitingFrame, EventView::Line(line)) => match classified(line) {
            InboundView::Ping => (PhaseView::Ponging, ActionView::Write(pong_frame())),
            InboundView::Header { subject, my_id, sender_id } => (
                PhaseView::AwaitingPayload { subject, my_id, sender_id },
                ActionView::Read,
            ),
            InboundView::Other => (PhaseView::AwaitingFrame, ActionView::Read),
        },
        (PhaseView::AwaitingFrame, EventView::ReadFailed) => resubscribing(c, Resume::Fail),
        (PhaseView::AwaitingPayload { subject, my_id, sender_id }, EventView::Line(line)) => (
            PhaseView::Idle,
            ActionView::Done(
                Ok(
                    ReplyView::Message(
                        MessageView {
                            root: c.root,
                            subject: unqualified(c.root, subject),
                            my_id,
                            sender_id,
                            data: unterminated(line),
                        },
                    ),
                ),
            ),
        ),
        (PhaseView::AwaitingPayload { .. }, EventView::ReadFailed) => resubscribing(
            c,
            Resume::Fail,
        ),
        (PhaseView::Ponging, EventView::Written) => (PhaseView::AwaitingFrame, ActionView::Read),
        (PhaseView::Ponging, EventView::WriteFailed) => resubscribing(c, Resume::Read),
        (PhaseView::Pinging, EventView::Written) => (PhaseView::AwaitingPong, ActionView::Read),
        (PhaseView::Pinging, EventView::WriteFailed) => (
            PhaseView::Idle,
            ActionView::Done(Err(Error::Ping)),
        ),
        (PhaseView::AwaitingPong, EventView::Line(line)) => (
            PhaseView::Idle,
            ActionView::Done(Ok(ReplyView::Pong(line))),
        ),
        (PhaseView::AwaitingPong, EventView::ReadFailed) => (
            PhaseView::Idle,
            ActionView::Done(Err(Error::Ping)),
        ),
        (PhaseView::Exiting, EventView::Written) => (
            PhaseView::Idle,
            ActionView::Done(Ok(ReplyView::Sent)),
        ),
        (PhaseView::Exiting, EventView::WriteFailed) => (
            PhaseView::Idle,
            ActionView::Done(Err(Error::Exit)),
        ),
        _ => (c.phase, subscriber_pending(c)),
    }
}

impl SubscribeClient {
    /// Makes a subscriber from the handshake banner, `None` standing for a
    /// banner that could not be read. The client comes with its subscribe
    /// frame pending: `pending` hands it out.
    pub fn new(banner: Option<&str>, root: &str, subject: &str) -> (made: Result<
        SubscribeClient,
        Error,
    >)
        ensures
            match banner_client_id(banner.deep_view()) {
                Some(client_id) => made is Ok && made->Ok_0@ == (SubscribeClientView {
                    client_id,
                    root: root@,
                    subject: subject@,
                    phase: PhaseView::Subscribing { resume: Resume::Report, failures: 0 },
                }),
                None => made is Err && made->Err_0 == Error::Initialize,
            },
    {
        let line = match banner {
            Some(line) => line,
            None => return Err(Error::Initialize),
        };
        let info = match read_banner_info(line) {
            Some(info) => info,
            None => return Err(Error::Initialize),
        };
        match read_member(info.as_str(), "client_id") {
            Some(client_id) => Ok(SubscribeClient::with_client_id(client_id, root, subject)),
            None => Err(Error::Initialize),
        }
    }

    /// Makes a subscriber whose identifier is known. The client comes with
    /// its subscribe frame pending.
    pub fn with_client_id(client_id: String, root: &str, subject: &str) -> (made: SubscribeClient)
        ensures
            made@ == (SubscribeClientView {
                client_id: client_id@,
                root: root@,
                subject: subject@,
                phase: PhaseView::Subscribing { resume: Resume::Report, failures: 0 },
            }),
    {
        SubscribeClient {
            client_id,
            root: root.to_owned(),
            subject: subject.to_owned(),
            phase: Phase::Subscribing { resume: Resume::Report, failures: 0 },
        }
    }

    /// The identifier that the bus assigned.
    pub fn client_id(&self) -> (out: &str)
        ensures
            out@ == self@.client_id,
    {
        self.client_id.as_str()
    }

    /// The namespace.
    pub fn root(&self) -> (out: &str)
        ensures
            out@ == self@.root,
    {
        self.root.as_str()
    }

    /// The logical subject.
    pub fn subject(&self) -> (out: &str)
        ensures
            out@ == self@.subject,
    {
        self.subject.as_str()
    }

    fn subscribe_frame(&self) -> (frame: String)
        ensures
            ActionView::Write(frame@) == subscribe_request(self@),
    {
        let wire = qualify(self.root.as_str(), self.subject.as_str());
        encode_sub(wire.as_str(), self.client_id.as_str())
    }

    /// The request that stands open.
    pub fn pending(&self) -> (action: Action)
        ensures
            action@ == subscriber_pending(self@),
    {
        match &self.phase {
            Phase::Idle => Action::Idle,
            Phase::Subscribing { .. } => Action::Write(self.subscribe_frame()),
            Phase::AwaitingFrame => Action::Read,
            Phase::AwaitingPayload { .. } => Action::Read,
            Phase::Ponging => Action::Write(encode_pong()),
            Phase::Pinging => Action::Write(encode_ping()),
            Phase::AwaitingPong => Action::Read,
            Phase::Exiting => Action::Write(encode_exit()),
        }
    }

    /// Starts over with the subscription: the subscribe frame is to be
    /// written, in `SUBSCRIBE_ATTEMPTS` attempts at most.
    pub fn subscribe(&mut self) -> (action: Action)
        ensures
            final(self)@ == (SubscribeClientView {
                phase: PhaseView::Subscribing { resume: Resume::Report, failures: 0 },
                ..old(self)@
            }),
            action@ == subscribe_request(old(self)@),
    {
        self.phase = Phase::Subscribing { resume: Resume::Report, failures: 0 };
        Action::Write(self.subscribe_frame())
    }

    /// Starts waiting for the next message: a line is to be read. What is
    /// read decides what follows, by the rules of `subscriber_step`: a probe
    /// is answered, the head of a message calls for its payload, any other
    /// line is passed over, until a message is there or no line can be read.
    pub fn next_message(&mut self) -> (action: Action)
        ensures
            final(self)@ == (SubscribeClientView { phase: PhaseView::AwaitingFrame, ..old(self)@ }),
            action@ == ActionView::Read,
    {
        self.phase = Phase::AwaitingFrame;
        Action::Read
    }

    /// Starts a probe of the connection: a `PING` is to be written.
    pub fn ping(&mut self) -> (action: Action)
        ensures
            final(self)@ == (SubscribeClientView { phase: PhaseView::Pinging, ..old(self)@ }),
            action@ == ActionView::Write(ping_frame()),
    {
        self.phase = Phase::Pinging;
        Action::Write(encode_ping())
    }

    /// Starts leaving the bus: an `EXIT` is to be written.
    pub fn exit(&mut self) -> (action: Action)
        ensures
            final(self)@ == (SubscribeClientView { phase: PhaseView::Exiting, ..old(self)@ }),
            action@ == ActionView::Write(exit_frame()),
    {
        self.phase = Phase::Exiting;
        Action::Write(encode_exit())
    }

    /// Takes the outcome of the last action and decides what comes next, by
    /// the rules of `subscriber_step`.
    pub fn handle(&mut self, event: Event) -> (action: Action)
        ensures
            final(self)@ == (SubscribeClientView {
                phase: subscriber_step(old(self)@, event@).0,
                ..old(self)@
            }),
            action@ == subscriber_step(old(self)@, event@).1,
    {
        let mut phase = Phase::Idle;
        core::mem::swap(&mut self.phase, &mut phase);
        match (phase, event) {
            (Phase::Subscribing { resume, .. }, Event::Written) => match resume {
                Resume::Report => Action::Done(Ok(Reply::Subscribed)),
                Resume::Fail => Action::Done(Err(Error::Subscribe)),
                Resume::Read => {
                    self.phase = Phase::AwaitingFrame;
                    Action::Read
                },
            },
            (Phase::Subscribing { resume, failures }, Event::WriteFailed) => {
                if failures < SUBSCRIBE_ATTEMPTS - 1 {
                    self.phase = Phase::Subscribing { resume, failures: failures + 1 };
                    Action::Write(self.subscribe_frame())
                } else {
                    Action::Done(Err(Error::Subscribe))
                }
            },
            (Phase::AwaitingFrame, Event::Line(line)) => match classify(line.as_str()) {
                Inbound::Ping => {
                    self.phase = Phase::Ponging;
                    Action::Write(encode_pong())
                },
                Inbound::Header { subject, my_id, sender_id } => {
                    self.phase = Phase::AwaitingPayload { subject, my_id, sender_id };
                    Action::Read
                },
                Inbound::Other => {
                    self.phase = Phase::AwaitingFrame;
                    Action::Read
                },
            },
            (Phase::AwaitingFrame, Event::ReadFailed) => {
                self.phase = Phase::Subscribing { resume: Resume::Fail, failures: 0 };
                Action::Write(self.subscribe_frame())
            },
            (Phase::AwaitingPayload { subject, my_id, sender_id }, Event::Line(line)) => {
                Action::Done(
                    Ok(
                        Reply::Message(
                            Message {
                                root: self.root.clone(),
                                subject: unqualify(self.root.as_str(), subject.as_str()),
                                my_id,
                                sender_id,
                                data: strip_terminator(line.as_str()).to_owned(),
                            },
                        ),
                    ),
                )
            },
            (Phase::AwaitingPayload { .. }, Event::ReadFailed) => {
                self.phase = Phase::Subscribing { resume: Resume::Fail, failures: 0 };
                Action::Write(self.subscribe_frame())
            },
            (Phase::Ponging, Event::Written) => {
                self.phase = Phase::AwaitingFrame;
                Action::Read
            },
            (Phase::Ponging, Event::WriteFailed) => {
                self.phase = Phase::Subscribing { resume: Resume::Read, failures: 0 };
                Action::Write(self.subscribe_frame())
            },
            (Phase::Pinging, Event::Written) => {
                self.phase = Phase::AwaitingPong;
                Action::Read
            },
            (Phase::Pinging, Event::WriteFailed) => Action::Done(Err(Error::Ping)),
            (Phase::AwaitingPong, Event::Line(line)) => Action::Done(Ok(Reply::Pong(line))),
            (Phase::AwaitingPong, Event::ReadFailed) => Action::Done(Err(Error::Ping)),
            (Phase::Exiting, Event::Written) => Action::Done(Ok(Reply::Sent)),
            (Phase::Exiting, Event::WriteFailed) => Action::Done(Err(Error::Exit)),
            (phase, _) => {
                self.phase = phase;
                self.pending()
            },
        }
    }
}

/// Where a publisher stands.
#[derive(Debug, PartialEq, Eq)]
pub enum PublishPhase {
    /// No operation is under way.
    Idle,
    /// This publish frame is to be written.
    Publishing(String),
    /// A probe is to be written.
    Pinging,
    /// The answer to a probe is to be read.
    AwaitingPong,
    /// A leave notice is to be written.
    Exiting,
}

/// `PublishPhase` as contracts see it: every text a sequence of characters.
pub enum PublishPhaseView {
    Idle,
    Publishing(Seq<char>),
    Pinging,
    AwaitingPong,
    Exiting,
}

impl View for PublishPhase {
    type V = PublishPhaseView;

    open spec fn view(&self) -> PublishPhaseView {
        match *self {
            PublishPhase::Idle => PublishPhaseView::Idle,
            PublishPhase::Publishing(frame) => PublishPhaseView::Publishing(frame@),
            PublishPhase::Pinging => PublishPhaseView::Pinging,
            PublishPhase::AwaitingPong => PublishPhaseView::AwaitingPong,
            PublishPhase::Exiting => PublishPhaseView::Exiting,
        }
    }
}

/// The publish role: one connection for any number of subjects.
#[derive(Debug, PartialEq, Eq)]
pub struct PublishClient {
    root: String,
    phase: PublishPhase,
}

/// `PublishClient` as contracts see it: every text a sequence of characters.
pub struct PublishClientView {
    pub root: Seq<char>,
    pub phase: PublishPhaseView,
}

impl View for PublishClient {
    type V = PublishClientView;

    closed spec fn view(&self) -> PublishClientView {
        PublishClientView { root: self.root@, phase: self.phase@ }
    }
}

/// The request that stands open in each phase of a publisher.
pub open spec fn publisher_pending(phase: PublishPhaseView) -> ActionView {
    match phase {
        PublishPhaseView::Idle => ActionView::Idle,
        PublishPhaseView::Publishing(frame) => ActionView::Write(frame),
        PublishPhaseView::Pinging => ActionView::Write(ping_frame()),
        PublishPhaseView::AwaitingPong => ActionView::Read,
        PublishPhaseView::Exiting => ActionView::Write(exit_frame()),
    }
}

/// The publisher's rules: the phase that follows `phase` on event `e`, and
/// the action that goes with it. A failed write ends the operation with its
/// error: nothing is written twice. An event that does not answer the open
/// request changes nothing.
pub open spec fn publisher_step(phase: PublishPhaseView, e: EventView) -> (
    PublishPhaseView,
    ActionView,
) {
    match (phase, e) {
        (PublishPhaseView::Publishing(_), EventView::Written) => (
            PublishPhaseView::Idle,
            ActionView::Done(Ok(ReplyView::Sent)),
        ),
        (PublishPhaseView::Publishing(_), EventView::WriteFailed) => (
            PublishPhaseView::Idle,
            ActionView::Done(Err(Error::Publish)),
        ),
        (PublishPhaseView::Pinging, EventView::Written) => (
            PublishPhaseView::AwaitingPong,
            ActionView::Read,
        ),
        (PublishPhaseView::Pinging, EventView::WriteFailed) => (
            PublishPhaseView::Idle,
            ActionView::Done(Err(Error::Ping)),
        ),
        (PublishPhaseView::AwaitingPong, EventView::Line(line)) => (
            PublishPhaseView::Idle,
            ActionView::Done(Ok(ReplyView::Pong(line))),
        ),
        (PublishPhaseView::AwaitingPong, EventView::ReadFailed) => (
            PublishPhaseView::Idle,
            ActionView::Done(Err(Error::Ping)),
        ),
        (PublishPhaseView::Exiting, EventView::Written) => (
            PublishPhaseView::Idle,
            ActionView::Done(Ok(ReplyView::Sent)),
        ),
        (PublishPhaseView::Exiting, EventView::WriteFailed) => (
            PublishPhaseView::Idle,
            ActionView::Done(Err(Error::Exit)),
        ),
        _ => (phase, publisher_pending(phase)),
    }
}

impl PublishClient {
    /// Makes a publisher once the handshake banner was read, `None` standing
    /// for a banner that could not be. What the banner says is not looked at.
    pub fn new(banner: Option<&str>, root: &str) -> (made: Result<PublishClient, Error>)
        ensures
            match banner {
                Some(_) => made is Ok && made->Ok_0@ == (PublishClientView {
                    root: root@,
                    phase: PublishPhaseView::Idle,
                }),
                None => made is Err && made->Err_0 == Error::Initialize,
            },
    {
        match banner {
            Some(_) => Ok(PublishClient { root: root.to_owned(), phase: PublishPhase::Idle }),
            None => Err(Error::Initialize),
        }
    }

    /// The namespace.
    pub fn root(&self) -> (out: &str)
        ensures
            out@ == self@.root,
    {
        self.root.as_str()
    }

    /// The request that stands open.
    pub fn pending(&self) -> (action: Action)
        ensures
            action@ == publisher_pending(self@.phase),
    {
        match &self.phase {
            PublishPhase::Idle => Action::Idle,
            PublishPhase::Publishing(frame) => Action::Write(frame.clone()),
            PublishPhase::Pinging => Action::Write(encode_ping()),
            PublishPhase::AwaitingPong => Action::Read,
            PublishPhase::Exiting => Action::Write(encode_exit()),
        }
    }

    /// Starts a publish of `data` to `subject`: one frame is to be written,
    /// which names the subject under the client's root and the payload's
    /// length in bytes. A write that fails ends the publish with the
    /// `Publish` error: the frame is not written again.
    pub fn publish(&mut self, subject: &str, data: &str) -> (action: Action)
        ensures
            final(self)@ == (PublishClientView {
                phase: PublishPhaseView::Publishing(
                    pub_frame(qualified(old(self)@.root, subject@), data@),
                ),
                ..old(self)@
            }),
            action@ == ActionView::Write(pub_frame(qualified(old(self)@.root, subject@), data@)),
    {
        let wire = qualify(self.root.as_str(), subject);
        let frame = encode_pub(wire.as_str(), data);
        self.phase = PublishPhase::Publishing(frame.clone());
        Action::Write(frame)
    }

    /// Starts a probe of the connection: a `PING` is to be written.
    pub fn ping(&mut self) -> (action: Action)
        ensures
            final(self)@ == (PublishClientView { phase: PublishPhaseView::Pinging, ..old(self)@ }),
            action@ == ActionView::Write(ping_frame()),
    {
        self.phase = PublishPhase::Pinging;
        Action::Write(encode_ping())
    }

    /// Starts leaving the bus: an `EXIT` is to be written.
    pub fn exit(&mut self) -> (action: Action)
        ensures
            final(self)@ == (PublishClientView { phase: PublishPhaseView::Exiting, ..old(self)@ }),
            action@ == ActionView::Write(exit_frame()),
    {
        self.phase = PublishPhase::Exiting;
        Action::Write(encode_exit())
    }

    /// Takes the outcome of the last action and decides what comes next, by
    /// the rules of `publisher_step`.
    pub fn handle(&mut self, event: Event) -> (action: Action)
        ensures
            final(self)@ == (PublishClientView {
                phase: publisher_step(old(self)@.phase, event@).0,
                ..old(self)@
            }),
            action@ == publisher_step(old(self)@.phase, event@).1,
    {
        let mut phase = PublishPhase::Idle;
        core::mem::swap(&mut self.phase, &mut phase);
        match (phase, event) {
            (PublishPhase::Publishing(_), Event::Written) => Action::Done(Ok(Reply::Sent)),
            (PublishPhase::Publishing(_), Event::WriteFailed) => Action::Done(
                Err(Error::Publish),
            ),
            (PublishPhase::Pinging, Event::Written) => {
                self.phase = PublishPhase::AwaitingPong;
                Action::Read
            },
            (PublishPhase::Pinging, Event::WriteFailed) => Action::Done(Err(Error::Ping)),
            (PublishPhase::AwaitingPong, Event::Line(line)) => Action::Done(Ok(Reply::Pong(line))),
            (PublishPhase::AwaitingPong, Event::ReadFailed) => Action::Done(Err(Error::Ping)),
            (PublishPhase::Exiting, Event::Written) => Action::Done(Ok(Reply::Sent)),
            (PublishPhase::Exiting, Event::WriteFailed) => Action::Done(Err(Error::Exit)),
            (phase, _) => {
                self.phase = phase;
                self.pending()
            },
        }
    }
}

/// Whether `e` reports how action `a` went: a read gives a line or fails, a
/// write goes through or fails, and nothing else is to be reported.
pub open spec fn answers(e: EventView, a: ActionView) -> bool {
    match a {
        ActionView::Read => e is Line || e is ReadFailed,
        ActionView::Write(_) => e is Written || e is WriteFailed,
        _ => false,
    }
}

/// The phase that a subscriber reaches through `events`, one after the
/// other.
pub open spec fn subscriber_phase_after(c: SubscribeClientView, events: Seq<EventView>) -> PhaseView
    decreases events.len(),
{
    if events.len() == 0 {
        c.phase
    } else {
        subscriber_step(
            SubscribeClientView { phase: subscriber_phase_after(c, events.drop_last()), ..c },
            events.last(),
        ).0
    }
}

/// The action that a subscriber gives on the last of `events`, having gone
/// through the others.
pub open spec fn subscriber_answer(c: SubscribeClientView, events: Seq<EventView>) -> ActionView
    recommends
        events.len() > 0,
{
    subscriber_step(
        SubscribeClientView { phase: subscriber_phase_after(c, events.drop_last()), ..c },
        events.last(),
    ).1
}

/// Whether every one of `events` reports on the request that stood open
/// when it came.
pub open spec fn in_step(c: SubscribeClientView, events: Seq<EventView>) -> bool {
    forall|n: int|
        0 <= n < events.len() ==> answers(
            #[trigger] events[n],
            subscriber_pending(
                SubscribeClientView { phase: subscriber_phase_after(c, events.take(n)), ..c },
            ),
        )
}

/// Whether the last of `events` is a keep-alive probe: a line that reads
/// `PING`, come where a frame was awaited.
pub open spec fn ends_in_probe(c: SubscribeClientView, events: Seq<EventView>) -> bool {
    &&& events.len() > 0
    &&& subscriber_phase_after(c, events.drop_last()) is AwaitingFrame
    &&& events.last() matches EventView::Line(line) && classified(line) is Ping
}

/// How many keep-alive probes `events` hold.
pub open spec fn probes(c: SubscribeClientView, events: Seq<EventView>) -> nat
    decreases events.len(),
{
    if events.len() == 0 {
        0
    } else if ends_in_probe(c, events) {
        probes(c, events.drop_last()) + 1
    } else {
        probes(c, events.drop_last())
    }
}

/// How many times a subscriber asks for a `PONG` frame while it goes
/// through `events`.
pub open spec fn answers_given(c: SubscribeClientView, events: Seq<EventView>) -> nat
    decreases events.len(),
{
    if events.len() == 0 {
        0
    } else if subscriber_answer(c, events) == ActionView::Write(pong_frame()) {
        answers_given(c, events.drop_last()) + 1
    } else {
        answers_given(c, events.drop_last())
    }
}

proof fn lemma_msg_is_not_ping()
    ensures
        "MSG"@ != "PING"@,
{
    reveal_strlit("MSG");
    reveal_strlit("PING");
    assert("MSG"@.len() == 3);
    assert("PING"@.len() == 4);
}

/// A keep-alive probe that arrives where a frame is awaited is answered with
/// one `PONG` frame and is not delivered; once the answer is written the
/// client reads on, and writes nothing more.
pub proof fn lemma_ping_is_answered(c: SubscribeClientView, line: Seq<char>)
    requires
        c.phase is AwaitingFrame,
        tokens(line).len() > 0,
        tokens(line)[0] == "PING"@,
    ensures
        subscriber_step(c, EventView::Line(line)) == (
            PhaseView::Ponging,
            ActionView::Write(pong_frame()),
        ),
        subscriber_step(
            SubscribeClientView { phase: PhaseView::Ponging, ..c },
            EventView::Written,
        ) == (PhaseView::AwaitingFrame, ActionView::Read),
{
}

/// Every keep-alive probe gets one answer, and nothing else gets one: as
/// long as each event reports on the request that stood open, a subscriber
/// asks for exactly as many `PONG` frames as probes came, and each of them
/// right when the probe comes.
pub proof fn lemma_one_answer_for_each_probe(c: SubscribeClientView, events: Seq<EventView>)
    requires
        in_step(c, events),
    ensures
        answers_given(c, events) == probes(c, events),
        events.len() > 0 ==> (subscriber_answer(c, events) == ActionView::Write(pong_frame())
            <==> ends_in_probe(c, events)),
    decreases events.len(),
{
    if events.len() > 0 {
        let before = events.drop_last();
        assert forall|n: int| 0 <= n < before.len() implies answers(
            #[trigger] before[n],
            subscriber_pending(
                SubscribeClientView { phase: subscriber_phase_after(c, before.take(n)), ..c },
            ),
        ) by {
            assert(before.take(n) == events.take(n));
            assert(before[n] == events[n]);
        }
        lemma_one_answer_for_each_probe(c, before);
        let n = events.len() - 1;
        assert(events.take(n) == before);
        assert(events[n] == events.last());
        lemma_frames_differ();
    }
}

/// The frames that a subscriber writes are told apart by their first
/// letters.
proof fn lemma_frames_differ()
    ensures
        pong_frame() != ping_frame(),
        pong_frame() != exit_frame(),
        forall|subject: Seq<char>, client_id: Seq<char>|
            pong_frame() != #[trigger] sub_frame(subject, client_id),
{
    reveal_strlit("PONG\r\n");
    reveal_strlit("PING\r\n");
    reveal_strlit("EXIT\r\n");
    reveal_strlit("SUB ");
    assert(pong_frame()[1] == 'O');
    assert(ping_frame()[1] == 'I');
    assert(exit_frame()[0] == 'E');
    assert forall|subject: Seq<char>, client_id: Seq<char>|
        pong_frame() != #[trigger] sub_frame(subject, client_id) by {
        assert(sub_frame(subject, client_id)[0] == 'S');
        assert(pong_frame()[0] == 'P');
    }
}

/// A `MSG` line that does not have four tokens is passed over: the client
/// stays where it was and reads the next line. Nothing is delivered and
/// nothing fails.
pub proof fn lemma_odd_msg_is_skipped(c: SubscribeClientView, line: Seq<char>)
    requires
        c.phase is AwaitingFrame,
        tokens(line).len() > 0,
        tokens(line)[0] == "MSG"@,
        tokens(line).len() != 4,
    ensures
        subscriber_step(c, EventView::Line(line)) == (PhaseView::AwaitingFrame, ActionView::Read),
{
    lemma_msg_is_not_ping();
}

/// A `MSG` line of four tokens and the line after it make one message: the
/// tokens give subject and identifiers, the second line without its
/// terminator is the payload, whitespace and all. Where the subject on the wire is the client's own, qualified,
/// the message carries the client's subject.
pub proof fn lemma_message_is_delivered(c: SubscribeClientView, head: Seq<char>, payload: Seq<char>)
    requires
        c.phase is AwaitingFrame,
        tokens(head).len() == 4,
        tokens(head)[0] == "MSG"@,
    ensures
        subscriber_step(c, EventView::Line(head)).1 == ActionView::Read,
        subscriber_step(
            SubscribeClientView { phase: subscriber_step(c, EventView::Line(head)).0, ..c },
            EventView::Line(payload),
        ) == (
            PhaseView::Idle,
            ActionView::Done(
                Ok(
                    ReplyView::Message(
                        MessageView {
                            root: c.root,
                            subject: unqualified(c.root, tokens(head)[1]),
                            my_id: tokens(head)[2],
                            sender_id: tokens(head)[3],
                            data: unterminated(payload),
                        },
                    ),
                ),
            ),
        ),
        tokens(head)[1] == qualified(c.root, c.subject) ==> unqualified(c.root, tokens(head)[1])
            == c.subject,
{
    lemma_msg_is_not_ping();
    lemma_unqualified_qualified(c.root, c.subject);
}

/// A payload arrives as it was sent: the line that follows the head of a
/// message loses its terminator and nothing else, so a text sent with a
/// carriage return and a line feed behind it is the payload, whitespace at
/// its ends and all.
pub proof fn lemma_payload_is_kept(c: SubscribeClientView, head: Seq<char>, text: Seq<char>)
    requires
        c.phase is AwaitingFrame,
        tokens(head).len() == 4,
        tokens(head)[0] == "MSG"@,
    ensures
        subscriber_step(
            SubscribeClientView { phase: subscriber_step(c, EventView::Line(head)).0, ..c },
            EventView::Line(text + seq!['\r', '\n']),
        ).1 matches ActionView::Done(Ok(ReplyView::Message(message))) && message.data == text,
{
    lemma_message_is_delivered(c, head, text + seq!['\r', '\n']);
    lemma_terminator_is_all_that_goes(text);
}

/// A subscribe frame is written `SUBSCRIBE_ATTEMPTS` times at most: each
/// write that fails is followed by another until the attempts are used up,
/// and then the operation ends with the `Subscribe` error, whatever was to
/// follow the frame.
pub proof fn lemma_subscribe_is_bounded(c: SubscribeClientView, resume: Resume)
    ensures
        subscriber_step(
            SubscribeClientView { phase: PhaseView::Subscribing { resume, failures: 0 }, ..c },
            EventView::WriteFailed,
        ) == (PhaseView::Subscribing { resume, failures: 1 }, subscribe_request(c)),
        subscriber_step(
            SubscribeClientView { phase: PhaseView::Subscribing { resume, failures: 1 }, ..c },
            EventView::WriteFailed,
        ) == (PhaseView::Subscribing { resume, failures: 2 }, subscribe_request(c)),
        subscriber_step(
            SubscribeClientView { phase: PhaseView::Subscribing { resume, failures: 2 }, ..c },
            EventView::WriteFailed,
        ) == (PhaseView::Idle, ActionView::Done(Err(Error::Subscribe))),
        forall|failures: u32|
            failures + 1 >= SUBSCRIBE_ATTEMPTS ==> #[trigger] subscriber_step(
                SubscribeClientView { phase: PhaseView::Subscribing { resume, failures }, ..c },
                EventView::WriteFailed,
            ) == (PhaseView::Idle, ActionView::Done(Err(Error::Subscribe))),
{
}

/// A line that cannot be read while a message is awaited makes the client
/// subscribe again, and ends the operation with the `Subscribe` error once
/// the frame is written.
pub proof fn lemma_read_failure_resubscribes(c: SubscribeClientView)
    requires
        c.phase is AwaitingFrame || c.phase is AwaitingPayload,
    ensures
        subscriber_step(c, EventView::ReadFailed) == (
            PhaseView::Subscribing { resume: Resume::Fail, failures: 0 },
            subscribe_request(c),
        ),
        forall|failures: u32| #[trigger]
            subscriber_step(
                SubscribeClientView {
                    phase: PhaseView::Subscribing { resume: Resume::Fail, failures },
                    ..c
                },
                EventView::Written,
            ) == (PhaseView::Idle, ActionView::Done(Err(Error::Subscribe))),
{
}

} // verus!

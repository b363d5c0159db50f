//! The four workers of the bridge, without their threads, queues and
//! clients. Two carry messages from the local bus to the remote one (a
//! subscriber fills a queue, a publisher drains it), two carry them back.
//! A worker never connects, sleeps or publishes: it gives a `Command`, is
//! told by a `Signal` how that went, and decides from there.

use crate::json_text::{json_document, normalize, normalized};
use crate::nats::{Message, MessageView};
use vstd::prelude::*;

verus! {

/// The pause before a failed step is tried again, in milliseconds.
pub const RETRY_INTERVAL_MS: u64 = 1000;

/// The place of a worker in the pipeline.
#[derive(Debug, Clone, Copy, PartialEq, Eq, Structural)]
pub enum Role {
    /// Reads the local bus and fills the outbound queue.
    LocalSubscriber,
    /// Drains the outbound queue into the remote bus.
    RemotePublisher,
    /// Reads the remote bus and fills the inbound queue.
    RemoteSubscriber,
    /// Drains the inbound queue into the local bus.
    LocalPublisher,
}

/// Whether the role reads a bus (and fills a queue) rather than writes one.
pub open spec fn subscribes(role: Role) -> bool {
    role is LocalSubscriber || role is RemoteSubscriber
}

/// What a worker asks of its thread.
#[derive(Debug, PartialEq, Eq)]
pub enum Command {
    /// Make the client of this role.
    Connect,
    /// Wait this many milliseconds.
    Sleep(u64),
    /// Wait for the next message of the bus.
    Receive,
    /// Push the message onto the queue.
    Enqueue(Message),
    /// Wait for the next message of the queue.
    Dequeue,
    /// Publish the payload to the subject.
    Publish { subject: String, data: String },
    /// End the thread.
    Stop,
}

/// `Command` as contracts see it: every text a sequence of characters.
pub enum CommandView {
    Connect,
    Sleep(u64),
    Receive,
    Enqueue(MessageView),
    Dequeue,
    Publish { subject: Seq<char>, data: Seq<char> },
    Stop,
}

impl View for Command {
    type V = CommandView;

    open spec fn view(&self) -> CommandView {
        match *self {
            Command::Connect => CommandView::Connect,
            Command::Sleep(millis) => CommandView::Sleep(millis),
            Command::Receive => CommandView::Receive,
            Command::Enqueue(message) => CommandView::Enqueue(message@),
            Command::Dequeue => CommandView::Dequeue,
            Command::Publish { subject, data } => CommandView::Publish {
                subject: subject@,
                data: data@,
            },
            Command::Stop => CommandView::Stop,
        }
    }
}

/// How the command that a worker gave went.
#[derive(Debug, PartialEq, Eq)]
pub enum Signal {
    /// The client stands.
    Connected,
    /// The client could not be made.
    ConnectFailed,
    /// The pause is over.
    Slept,
    /// The bus delivered a message.
    Received(Message),
    /// The bus delivered nothing.
    ReceiveFailed,
    /// The message is on the queue.
    Enqueued,
    /// The queue handed out a message.
    Dequeued(Message),
    /// The other end of the queue is gone.
    QueueClosed,
    /// The message is published.
    Published,
    /// The message could not be published.
    PublishFailed,
}

/// `Signal` as contracts see it: every text a sequence of characters.
pub enum SignalView {
    Connected,
    ConnectFailed,
    Slept,
    Received(MessageView),
    ReceiveFailed,
    Enqueued,
    Dequeued(MessageView),
    QueueClosed,
    Published,
    PublishFailed,
}

impl View for Signal {
    type V = SignalView;

    open spec fn view(&self) -> SignalView {
        match *self {
            Signal::Connected => SignalView::Connected,
            Signal::ConnectFailed => SignalView::ConnectFailed,
            Signal::Slept => SignalView::Slept,
            Signal::Received(message) => SignalView::Received(message@),
            Signal::ReceiveFailed => SignalView::ReceiveFailed,
            Signal::Enqueued => SignalView::Enqueued,
            Signal::Dequeued(message) => SignalView::Dequeued(message@),
            Signal::QueueClosed => SignalView::QueueClosed,
            Signal::Published => SignalView::Published,
            Signal::PublishFailed => SignalView::PublishFailed,
        }
    }
}

/// Where a worker stands.
#[derive(Debug, PartialEq, Eq)]
pub enum Stage {
    /// The client is to be made.
    Connecting,
    /// Making the client failed: a pause, then once more.
    Reconnecting,
    /// A message of the bus is awaited.
    Receiving,
    /// This message is to go onto the queue.
    Enqueuing(Message),
    /// A message of the queue is awaited.
    Draining,
    /// This message is to be published.
    Publishing(Message),
    /// Publishing failed: a pause, then this message once more, or the next
    /// one of the queue where there is none to repeat.
    Pausing(Option<Message>),
    /// The thread is to end.
    Stopped,
}

/// `Stage` as contracts see it: every text a sequence of characters.
pub enum StageView {
    Connecting,
    Reconnecting,
    Receiving,
    Enqueuing(MessageView),
    Draining,
    Publishing(MessageView),
    Pausing(Option<MessageView>),
    Stopped,
}

impl View for Stage {
    type V = StageView;

    open spec fn view(&self) -> StageView {
        match *self {
            Stage::Connecting => StageView::Connecting,
            Stage::Reconnecting => StageView::Reconnecting,
            Stage::Receiving => StageView::Receiving,
            Stage::Enqueuing(message) => StageView::Enqueuing(message@),
            Stage::Draining => StageView::Draining,
            Stage::Publishing(message) => StageView::Publishing(message@),
            Stage::Pausing(Some(message)) => StageView::Pausing(Some(message@)),
            Stage::Pausing(None) => StageView::Pausing(None),
            Stage::Stopped => StageView::Stopped,
        }
    }
}

/// One of the four workers.
#[derive(Debug, PartialEq, Eq)]
pub struct Worker {
    role: Role,
    stage: Stage,
}

/// `Worker` as contracts see it: every text a sequence of characters.
pub struct WorkerView {
    pub role: Role,
    pub stage: StageView,
}

impl View for Worker {
    type V = WorkerView;

    closed spec fn view(&self) -> WorkerView {
        WorkerView { role: self.role, stage: self.stage@ }
    }
}

/// A message as it leaves the worker that received it: on the way to the
/// remote bus its payload is made a JSON document, on the way back it is
/// left alone.
pub open spec fn outbound(role: Role, message: MessageView) -> MessageView {
    if role is LocalSubscriber {
        MessageView { data: normalized(message.data), ..message }
    } else {
        message
    }
}

/// What is kept of a message that could not be published: on the way to the
/// remote bus the message itself, to be published again; on the way to the
/// local bus nothing, so the message is lost.
pub open spec fn retained(role: Role, message: MessageView) -> Option<MessageView> {
    if role is RemotePublisher {
        Some(message)
    } else {
        None
    }
}

/// The command that stands open in each stage.
pub open spec fn worker_pending(stage: StageView) -> CommandView {
    match stage {
        StageView::Connecting => CommandView::Connect,
        StageView::Reconnecting => CommandView::Sleep(RETRY_INTERVAL_MS),
        StageView::Receiving => CommandView::Receive,
        StageView::Enqueuing(message) => CommandView::Enqueue(message),
        StageView::Draining => CommandView::Dequeue,
        StageView::Publishing(message) => CommandView::Publish {
            subject: message.subject,
            data: message.data,
        },
        StageView::Pausing(_) => CommandView::Sleep(RETRY_INTERVAL_MS),
        StageView::Stopped => CommandView::Stop,
    }
}

/// The worker's rules: the stage that follows `stage` on `signal`. A signal
/// that does not answer the open command changes nothing.
pub open spec fn worker_step(role: Role, stage: StageView, signal: SignalView) -> StageView {
    match (stage, signal) {
        (StageView::Connecting, SignalView::Connected) => if subscribes(role) {
            StageView::Receiving
        } else {
            StageView::Draining
        },
        (StageView::Connecting, SignalView::ConnectFailed) => StageView::Reconnecting,
        (StageView::Reconnecting, SignalView::Slept) => StageView::Connecting,
        (StageView::Receiving, SignalView::Received(message)) => StageView::Enqueuing(
            outbound(role, message),
        ),
        (StageView::Receiving, SignalView::ReceiveFailed) => StageView::Receiving,
        (StageView::Enqueuing(_), SignalView::Enqueued) => StageView::Receiving,
        (StageView::Enqueuing(_), SignalView::QueueClosed) => StageView::Stopped,
        (StageView::Draining, SignalView::Dequeued(message)) => StageView::Publishing(message),
        (StageView::Draining, SignalView::QueueClosed) => StageView::Stopped,
        (StageView::Publishing(_), SignalView::Published) => StageView::Draining,
        (StageView::Publishing(message), SignalView::PublishFailed) => StageView::Pausing(
            retained(role, message),
        ),
        (StageView::Pausing(Some(message)), SignalView::Slept) => StageView::Publishing(message),
        (StageView::Pausing(None), SignalView::Slept) => StageView::Draining,
        _ => stage,
    }
}

/// A worker stays on its side of its queue: one that subscribes never
/// drains or publishes, one that publishes never receives or enqueues.
pub open spec fn stage_fits(role: Role, stage: StageView) -> bool {
    match stage {
        StageView::Receiving | StageView::Enqueuing(_) => subscribes(role),
        StageView::Draining | StageView::Publishing(_) | StageView::Pausing(_) => !subscribes(
            role,
        ),
        _ => true,
    }
}

/// What the local subscriber has for its queue is a JSON document.
pub open spec fn stage_is_safe(role: Role, stage: StageView) -> bool {
    role is LocalSubscriber ==> match stage {
        StageView::Enqueuing(message) => json_document(message.data) is Some,
        _ => true,
    }
}

impl Worker {
    #[verifier::type_invariant]
    spec fn in_order(self) -> bool {
        stage_fits(self.role, self.stage@) && stage_is_safe(self.role, self.stage@)
    }

    /// A worker of the given role, about to make its client.
    pub fn new(role: Role) -> (worker: Worker)
        ensures
            worker@ == (WorkerView { role, stage: StageView::Connecting }),
    {
        Worker { role, stage: Stage::Connecting }
    }

    /// The worker's place in the pipeline.
    pub fn role(&self) -> (role: Role)
        ensures
            role == self@.role,
    {
        self.role
    }

    /// The command that stands open.
    pub fn pending(&self) -> (command: Command)
        ensures
            command@ == worker_pending(self@.stage),
            stage_fits(self@.role, self@.stage),
            stage_is_safe(self@.role, self@.stage),
    {
        proof {
            use_type_invariant(self);
        }
        match &self.stage {
            Stage::Connecting => Command::Connect,
            Stage::Reconnecting => Command::Sleep(RETRY_INTERVAL_MS),
            Stage::Receiving => Command::Receive,
            Stage::Enqueuing(message) => Command::Enqueue(
                Message {
                    root: message.root.clone(),
                    subject: message.subject.clone(),
                    my_id: message.my_id.clone(),
                    sender_id: message.sender_id.clone(),
                    data: message.data.clone(),
                },
            ),
            Stage::Draining => Command::Dequeue,
            Stage::Publishing(message) => Command::Publish {
                subject: message.subject.clone(),
                data: message.data.clone(),
            },
            Stage::Pausing(_) => Command::Sleep(RETRY_INTERVAL_MS),
            Stage::Stopped => Command::Stop,
        }
    }

    /// Takes the outcome of the last command and gives the next one, by the
    /// rules of `worker_step`.
    pub fn handle(&mut self, signal: Signal) -> (command: Command)
        ensures
            final(self)@ == (WorkerView {
                stage: worker_step(old(self)@.role, old(self)@.stage, signal@),
                ..old(self)@
            }),
            command@ == worker_pending(final(self)@.stage),
            stage_fits(final(self)@.role, final(self)@.stage),
            stage_is_safe(final(self)@.role, final(self)@.stage),
    {
        proof {
            use_type_invariant(&*self);
        }
        let mut stage = Stage::Stopped;
        core::mem::swap(&mut self.stage, &mut stage);
        self.stage =
        match (stage, signal) {
            (Stage::Connecting, Signal::Connected) => match self.role {
                Role::LocalSubscriber | Role::RemoteSubscriber => Stage::Receiving,
                Role::RemotePublisher | Role::LocalPublisher => Stage::Draining,
            },
            (Stage::Connecting, Signal::ConnectFailed) => Stage::Reconnecting,
            (Stage::Reconnecting, Signal::Slept) => Stage::Connecting,
            (Stage::Receiving, Signal::Received(message)) => match self.role {
                Role::LocalSubscriber => Stage::Enqueuing(
                    Message {
                        root: message.root,
                        subject: message.subject,
                        my_id: message.my_id,
                        sender_id: message.sender_id,
                        data: normalize(message.data),
                    },
                ),
                _ => Stage::Enqueuing(message),
            },
            (Stage::Receiving, Signal::ReceiveFailed) => Stage::Receiving,
            (Stage::Enqueuing(_), Signal::Enqueued) => Stage::Receiving,
            (Stage::Enqueuing(_), Signal::QueueClosed) => Stage::Stopped,
            (Stage::Draining, Signal::Dequeued(message)) => Stage::Publishing(message),
            (Stage::Draining, Signal::QueueClosed) => Stage::Stopped,
            (Stage::Publishing(_), Signal::Published) => Stage::Draining,
            (Stage::Publishing(message), Signal::PublishFailed) => match self.role {
                Role::RemotePublisher => Stage::Pausing(Some(message)),
                _ => Stage::Pausing(None),
            },
            (Stage::Pausing(Some(message)), Signal::Slept) => Stage::Publishing(message),
            (Stage::Pausing(None), Signal::Slept) => Stage::Draining,
            (stage, _) => stage,
        };
        self.pending()
    }
}

/// The stage that a worker reaches from `stage` through `signals`, one
/// after the other.
pub open spec fn worker_run(role: Role, stage: StageView, signals: Seq<SignalView>) -> StageView
    decreases signals.len(),
{
    if signals.len() == 0 {
        stage
    } else {
        worker_step(role, worker_run(role, stage, signals.drop_last()), signals.last())
    }
}

/// `rounds` failed attempts to make the client, each followed by the pause.
pub open spec fn failed_connects(rounds: nat) -> Seq<SignalView>
    decreases rounds,
{
    if rounds == 0 {
        Seq::empty()
    } else {
        failed_connects((rounds - 1) as nat).push(SignalView::ConnectFailed).push(
            SignalView::Slept,
        )
    }
}

/// A client that cannot be made does not end the worker: the worker pauses
/// for the retry interval and then tries again, however often that happens.
pub proof fn lemma_connect_is_retried(role: Role, rounds: nat)
    ensures
        worker_step(role, StageView::Connecting, SignalView::ConnectFailed)
            == StageView::Reconnecting,
        worker_pending(StageView::Reconnecting) == CommandView::Sleep(RETRY_INTERVAL_MS),
        worker_step(role, StageView::Reconnecting, SignalView::Slept) == StageView::Connecting,
        worker_pending(StageView::Connecting) == CommandView::Connect,
        worker_run(role, StageView::Connecting, failed_connects(rounds)) == StageView::Connecting,
    decreases rounds,
{
    if rounds > 0 {
        lemma_connect_is_retried(role, (rounds - 1) as nat);
        let before = failed_connects((rounds - 1) as nat);
        let middle = before.push(SignalView::ConnectFailed);
        assert(middle.drop_last() == before);
        assert(failed_connects(rounds).drop_last() == middle);
        assert(worker_run(role, StageView::Connecting, middle) == StageView::Reconnecting);
    }
}

/// No attempt to make the client follows another without a pause: the only
/// way into `Connecting` is out of the pause that a failed attempt starts.
pub proof fn lemma_connect_follows_pause(role: Role, stage: StageView, signal: SignalView)
    requires
        worker_step(role, stage, signal) is Connecting,
    ensures
        stage is Connecting || (stage is Reconnecting && signal is Slept),
{
}

/// Only a queue whose other end is gone ends a worker: no failure to
/// connect, to receive or to publish does.
pub proof fn lemma_only_a_closed_queue_stops(role: Role, stage: StageView, signal: SignalView)
    requires
        worker_step(role, stage, signal) is Stopped,
    ensures
        stage is Stopped || signal is QueueClosed,
{
}

/// On the way to the remote bus a message that could not be published is
/// published again after the pause, unchanged.
pub proof fn lemma_remote_publish_is_repeated(message: MessageView)
    ensures
        worker_run(
            Role::RemotePublisher,
            StageView::Publishing(message),
            seq![SignalView::PublishFailed, SignalView::Slept],
        ) == StageView::Publishing(message),
        worker_pending(
            worker_step(
                Role::RemotePublisher,
                StageView::Publishing(message),
                SignalView::PublishFailed,
            ),
        ) == CommandView::Sleep(RETRY_INTERVAL_MS),
{
    let signals = seq![SignalView::PublishFailed, SignalView::Slept];
    assert(signals.drop_last() =~= seq![SignalView::PublishFailed]);
    assert(signals.drop_last().drop_last() =~= Seq::<SignalView>::empty());
    reveal_with_fuel(worker_run, 3);
}

/// The message that a worker holds to publish, now or after a pause.
pub open spec fn held(stage: StageView) -> Option<MessageView> {
    match stage {
        StageView::Publishing(message) => Some(message),
        StageView::Pausing(Some(message)) => Some(message),
        _ => None,
    }
}

/// On the way to the remote bus no message is lost: a worker that holds one
/// goes on holding it, whatever happens, until it is published.
pub proof fn lemma_remote_publisher_keeps_its_message(stage: StageView, signal: SignalView)
    requires
        held(stage) is Some,
    ensures
        held(worker_step(Role::RemotePublisher, stage, signal)) == held(stage) || (stage
            is Publishing && signal is Published),
{
}

/// On the way to the local bus a message that could not be published is
/// given up: after the pause the worker turns to the queue.
pub proof fn lemma_local_publish_is_dropped(message: MessageView)
    ensures
        worker_run(
            Role::LocalPublisher,
            StageView::Publishing(message),
            seq![SignalView::PublishFailed, SignalView::Slept],
        ) == StageView::Draining,
        worker_pending(
            worker_step(
                Role::LocalPublisher,
                StageView::Publishing(message),
                SignalView::PublishFailed,
            ),
        ) == CommandView::Sleep(RETRY_INTERVAL_MS),
{
    let signals = seq![SignalView::PublishFailed, SignalView::Slept];
    assert(signals.drop_last() =~= seq![SignalView::PublishFailed]);
    assert(signals.drop_last().drop_last() =~= Seq::<SignalView>::empty());
    reveal_with_fuel(worker_run, 3);
}

/// Every step keeps a worker on its side of its queue.
pub proof fn lemma_step_keeps_side(role: Role, stage: StageView, signal: SignalView)
    requires
        stage_fits(role, stage),
    ensures
        stage_fits(role, worker_step(role, stage, signal)),
{
}

} // verus!

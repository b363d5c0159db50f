use nats_bridge::nats::{
    Action, Error, Event, Message, PublishClient, Reply, SubscribeClient, PUBLISH_TIMEOUT_SECS,
    SUBSCRIBE_ATTEMPTS, SUBSCRIBE_TIMEOUT_SECS,
};
use std::collections::VecDeque;

const BANNER: &str = "INFO {\"server_id\":\"asbLGfs3r7pgZwucUxYnPn\",\"version\":\"1.4.1\",\"proto\":1,\"git_commit\":\"3e64f0b\",\"go\":\"go1.11.5\",\"host\":\"0.0.0.0\",\"port\":4222,\"max_payload\":1048576,\"client_id\":9999}\r\n";

/// A bus in memory: greets with a banner and answers frames as they are
/// written.
struct Mock {
    inbox: VecDeque<String>,
    written: Vec<String>,
    open: bool,
}

impl Mock {
    fn new() -> Mock {
        let mut inbox = VecDeque::new();
        inbox.push_back(BANNER.to_string());
        Mock { inbox, written: Vec::new(), open: true }
    }

    fn readln(&mut self) -> Option<String> {
        self.inbox.pop_front()
    }

    fn write(&mut self, frame: &str) -> bool {
        if !self.open {
            return false;
        }
        self.written.push(frame.to_string());
        let mut lines = frame.split_inclusive('\n');
        while let Some(line) = lines.next() {
            match line {
                "EXIT\r\n" => self.open = false,
                "PING\r\n" => self.inbox.push_back("PONG\r\n".to_string()),
                "SUB demo 9999\r\n" => {
                    self.inbox.push_back("MSG demo 9999 5\r\n".to_string());
                    self.inbox.push_back("KNOCK\r\n".to_string());
                }
                "PUB demo 5\r\n" => {
                    let payload = lines.next().unwrap_or("");
                    self.inbox.push_back("MSG demo 1 1\r\n".to_string());
                    self.inbox.push_back(payload.to_string());
                }
                _ => {}
            }
        }
        true
    }
}

fn perform(mock: &mut Mock, action: Action) -> Result<Event, Result<Reply, Error>> {
    match action {
        Action::Read => Ok(match mock.readln() {
            Some(line) => Event::Line(line),
            None => Event::ReadFailed,
        }),
        Action::Write(frame) => Ok(if mock.write(&frame) {
            Event::Written
        } else {
            Event::WriteFailed
        }),
        Action::Done(result) => Err(result),
        Action::Idle => panic!("no operation is under way"),
    }
}

fn run_subscriber(mock: &mut Mock, client: &mut SubscribeClient, first: Action) -> Result<Reply, Error> {
    let mut action = first;
    loop {
        match perform(mock, action) {
            Ok(event) => action = client.handle(event),
            Err(result) => return result,
        }
    }
}

fn run_publisher(mock: &mut Mock, client: &mut PublishClient, first: Action) -> Result<Reply, Error> {
    let mut action = first;
    loop {
        match perform(mock, action) {
            Ok(event) => action = client.handle(event),
            Err(result) => return result,
        }
    }
}

fn subscriber(root: &str, subject: &str) -> SubscribeClient {
    SubscribeClient::new(Some(BANNER), root, subject).expect("a subscriber")
}

fn line(text: &str) -> Event {
    Event::Line(text.to_string())
}

fn write(text: &str) -> Action {
    Action::Write(text.to_string())
}

#[test]
fn publish_ok() {
    let mut mock = Mock::new();
    let subject = "demo";
    let root = "";
    let banner = mock.readln();
    let mut publisher = PublishClient::new(banner.as_deref(), root).expect("NATS Publish Client");

    let first = publisher.publish(subject, "Hello");
    run_publisher(&mut mock, &mut publisher, first).expect("Message Sent");
    let first = publisher.exit();
    run_publisher(&mut mock, &mut publisher, first).expect("NATS Connection Closed");
    assert_eq!(mock.written, vec!["PUB demo 5\r\nHello\r\n", "EXIT\r\n"]);
}

#[test]
fn subscribe_ok() {
    let mut mock = Mock::new();
    let subject = "demo";
    let root = "";
    let banner = mock.readln();
    let mut subscriber =
        SubscribeClient::new(banner.as_deref(), root, subject).expect("NATS Subscribe Client");
    let first = subscriber.pending();
    assert_eq!(run_subscriber(&mut mock, &mut subscriber, first), Ok(Reply::Subscribed));

    let first = subscriber.next_message();
    let result = run_subscriber(&mut mock, &mut subscriber, first);
    assert!(result.is_ok());
    let message = match result.expect("Received Message") {
        Reply::Message(message) => message,
        other => panic!("no message: {:?}", other),
    };
    assert!(message.subject.len() > 0);
    assert_eq!(
        message,
        Message {
            root: "".to_string(),
            subject: "demo".to_string(),
            my_id: "9999".to_string(),
            sender_id: "5".to_string(),
            data: "KNOCK".to_string(),
        }
    );
    let first = subscriber.exit();
    run_subscriber(&mut mock, &mut subscriber, first).expect("NATS Socket Closed");
    assert_eq!(mock.written, vec!["SUB demo 9999\r\n", "EXIT\r\n"]);
}

#[test]
fn ping_ok() {
    let mut mock = Mock::new();
    let root = "";
    let banner = mock.readln();
    let mut nats = PublishClient::new(banner.as_deref(), root).expect("NATS Publish Client");

    let first = nats.ping();
    let pong = match run_publisher(&mut mock, &mut nats, first).expect("Pong from Ping") {
        Reply::Pong(pong) => pong,
        other => panic!("no pong: {:?}", other),
    };
    assert_eq!(pong, "PONG\r\n");

    let first = nats.exit();
    run_publisher(&mut mock, &mut nats, first).expect("NATS Connection Closed");
}

#[test]
fn subscriber_ping_ok() {
    let mut mock = Mock::new();
    let banner = mock.readln();
    let mut nats = SubscribeClient::new(banner.as_deref(), "", "other").expect("a subscriber");
    let first = nats.ping();
    assert_eq!(
        run_subscriber(&mut mock, &mut nats, first),
        Ok(Reply::Pong("PONG\r\n".to_string()))
    );
}

#[test]
fn published_message_comes_back() {
    let mut mock = Mock::new();
    let banner = mock.readln();
    let mut publisher = PublishClient::new(banner.as_deref(), "").expect("a publisher");
    let mut subscriber = SubscribeClient::with_client_id("1".to_string(), "", "demo");
    let first = publisher.publish("demo", "Hello");
    assert_eq!(run_publisher(&mut mock, &mut publisher, first), Ok(Reply::Sent));
    let first = subscriber.next_message();
    match run_subscriber(&mut mock, &mut subscriber, first) {
        Ok(Reply::Message(message)) => {
            assert_eq!(message.subject, "demo");
            assert_eq!(message.data, "Hello");
        }
        other => panic!("no message: {:?}", other),
    }
}

#[test]
fn banner_gives_the_client_id_of_the_subscribe_frame() {
    let client = SubscribeClient::new(Some("INFO {\"client_id\":9999,\"port\":4222}\r\n"), "", "demo")
        .expect("a subscriber");
    assert_eq!(client.client_id(), "9999");
    assert_eq!(client.pending(), write("SUB demo 9999\r\n"));
}

#[test]
fn client_id_is_taken_as_it_is_printed() {
    let client = SubscribeClient::new(Some("INFO {\"client_id\":\"abc-7\"}"), "root", "x")
        .expect("a subscriber");
    assert_eq!(client.client_id(), "abc-7");
    assert_eq!(client.root(), "root");
    assert_eq!(client.subject(), "x");
    assert_eq!(client.pending(), write("SUB root.x abc-7\r\n"));
}

#[test]
fn subscriber_needs_a_banner() {
    assert_eq!(SubscribeClient::new(None, "", "demo"), Err(Error::Initialize));
}

#[test]
fn subscriber_needs_a_second_token() {
    assert_eq!(SubscribeClient::new(Some("INFO\r\n"), "", "demo"), Err(Error::Initialize));
    assert_eq!(SubscribeClient::new(Some(""), "", "demo"), Err(Error::Initialize));
}

#[test]
fn subscriber_needs_json() {
    assert_eq!(SubscribeClient::new(Some("INFO client_id\r\n"), "", "demo"), Err(Error::Initialize));
    assert_eq!(
        SubscribeClient::new(Some("INFO {\"client_id\":\r\n"), "", "demo"),
        Err(Error::Initialize)
    );
    assert_eq!(
        SubscribeClient::new(Some("INFO {\"client_id\": 9999}\r\n"), "", "demo"),
        Err(Error::Initialize)
    );
}

#[test]
fn subscriber_needs_the_client_id_member() {
    assert_eq!(
        SubscribeClient::new(Some("INFO {\"server_id\":\"x\"}\r\n"), "", "demo"),
        Err(Error::Initialize)
    );
    assert_eq!(SubscribeClient::new(Some("INFO [9999]\r\n"), "", "demo"), Err(Error::Initialize));
    assert_eq!(SubscribeClient::new(Some("INFO 9999\r\n"), "", "demo"), Err(Error::Initialize));
}

#[test]
fn limits() {
    assert_eq!(SUBSCRIBE_ATTEMPTS, 3);
    assert_eq!(SUBSCRIBE_TIMEOUT_SECS, 30);
    assert_eq!(PUBLISH_TIMEOUT_SECS, 5);
}

#[test]
fn subscribe_frame_is_given_up_after_three_attempts() {
    let mut client = subscriber("root", "x");
    assert_eq!(client.pending(), write("SUB root.x 9999\r\n"));
    assert_eq!(client.handle(Event::WriteFailed), write("SUB root.x 9999\r\n"));
    assert_eq!(client.handle(Event::WriteFailed), write("SUB root.x 9999\r\n"));
    assert_eq!(client.handle(Event::WriteFailed), Action::Done(Err(Error::Subscribe)));
    assert_eq!(client.pending(), Action::Idle);
}

#[test]
fn subscribe_counts_its_attempts_anew() {
    let mut client = subscriber("", "demo");
    client.handle(Event::WriteFailed);
    client.handle(Event::WriteFailed);
    assert_eq!(client.subscribe(), write("SUB demo 9999\r\n"));
    assert_eq!(client.handle(Event::WriteFailed), write("SUB demo 9999\r\n"));
    assert_eq!(client.handle(Event::WriteFailed), write("SUB demo 9999\r\n"));
    assert_eq!(client.handle(Event::Written), Action::Done(Ok(Reply::Subscribed)));
}

#[test]
fn resubscribe_that_fails_ends_the_call() {
    let mut client = subscriber("", "demo");
    client.next_message();
    assert_eq!(client.handle(Event::ReadFailed), write("SUB demo 9999\r\n"));
    assert_eq!(client.handle(Event::WriteFailed), write("SUB demo 9999\r\n"));
    assert_eq!(client.handle(Event::WriteFailed), write("SUB demo 9999\r\n"));
    assert_eq!(client.handle(Event::WriteFailed), Action::Done(Err(Error::Subscribe)));

    client.next_message();
    assert_eq!(client.handle(line("PING\r\n")), write("PONG\r\n"));
    assert_eq!(client.handle(Event::WriteFailed), write("SUB demo 9999\r\n"));
    assert_eq!(client.handle(Event::WriteFailed), write("SUB demo 9999\r\n"));
    assert_eq!(client.handle(Event::WriteFailed), write("SUB demo 9999\r\n"));
    assert_eq!(client.handle(Event::WriteFailed), Action::Done(Err(Error::Subscribe)));
    assert_eq!(client.next_message(), Action::Read);
}

#[test]
fn subscribe_frame_is_written_again_when_it_fails() {
    let mut client = subscriber("root", "x");
    assert_eq!(client.pending(), write("SUB root.x 9999\r\n"));
    assert_eq!(client.handle(Event::WriteFailed), write("SUB root.x 9999\r\n"));
    assert_eq!(client.handle(Event::WriteFailed), write("SUB root.x 9999\r\n"));
    assert_eq!(client.handle(Event::Written), Action::Done(Ok(Reply::Subscribed)));
    assert_eq!(client.pending(), Action::Idle);
}

#[test]
fn subscribe_starts_over() {
    let mut client = subscriber("", "demo");
    assert_eq!(client.handle(Event::Written), Action::Done(Ok(Reply::Subscribed)));
    assert_eq!(client.subscribe(), write("SUB demo 9999\r\n"));
    assert_eq!(client.handle(Event::Written), Action::Done(Ok(Reply::Subscribed)));
}

#[test]
fn ping_is_answered_with_one_pong() {
    let mut client = subscriber("", "demo");
    assert_eq!(client.next_message(), Action::Read);
    assert_eq!(client.handle(line("PING\r\n")), write("PONG\r\n"));
    assert_eq!(client.handle(Event::Written), Action::Read);
    assert_eq!(client.handle(line("PING\r\n")), write("PONG\r\n"));
    assert_eq!(client.handle(Event::Written), Action::Read);
    assert_eq!(client.handle(line("MSG demo 9999 5\r\n")), Action::Read);
}

#[test]
fn failed_pong_subscribes_again_and_reads_on() {
    let mut client = subscriber("", "demo");
    client.next_message();
    assert_eq!(client.handle(line("PING\r\n")), write("PONG\r\n"));
    assert_eq!(client.handle(Event::WriteFailed), write("SUB demo 9999\r\n"));
    assert_eq!(client.handle(Event::WriteFailed), write("SUB demo 9999\r\n"));
    assert_eq!(client.handle(Event::Written), Action::Read);
    assert_eq!(client.handle(line("MSG demo 9999 5\r\n")), Action::Read);
}

#[test]
fn msg_of_another_length_is_skipped() {
    let mut client = subscriber("", "demo");
    client.next_message();
    assert_eq!(client.handle(line("MSG demo 9999\r\n")), Action::Read);
    assert_eq!(client.handle(line("MSG demo 9999 5 7\r\n")), Action::Read);
    assert_eq!(client.handle(line("MSG\r\n")), Action::Read);
    assert_eq!(client.handle(line("MSG demo 9999 5\r\n")), Action::Read);
    match client.handle(line("first payload\r\n")) {
        Action::Done(Ok(Reply::Message(message))) => assert_eq!(message.data, "first payload"),
        other => panic!("no message: {:?}", other),
    }
}

#[test]
fn unknown_lines_are_skipped() {
    let mut client = subscriber("", "demo");
    client.next_message();
    assert_eq!(client.handle(line("+OK\r\n")), Action::Read);
    assert_eq!(client.handle(line("\r\n")), Action::Read);
    assert_eq!(client.handle(line("")), Action::Read);
    assert_eq!(client.handle(line("PONG\r\n")), Action::Read);
    assert_eq!(client.handle(line("-ERR 'Unknown Protocol Operation'\r\n")), Action::Read);
}

#[test]
fn message_has_its_root_removed() {
    let mut client = subscriber("root", "x");
    client.next_message();
    assert_eq!(client.handle(line("MSG root.x 9999 42\r\n")), Action::Read);
    assert_eq!(
        client.handle(line("  {\"a\":1} \r\n")),
        Action::Done(Ok(Reply::Message(Message {
            root: "root".to_string(),
            subject: "x".to_string(),
            my_id: "9999".to_string(),
            sender_id: "42".to_string(),
            data: "  {\"a\":1} ".to_string(),
        })))
    );
    assert_eq!(client.pending(), Action::Idle);
}

#[test]
fn payload_that_looks_like_a_frame_is_a_payload() {
    let mut client = subscriber("", "demo");
    client.next_message();
    assert_eq!(client.handle(line("MSG demo 9999 5\r\n")), Action::Read);
    match client.handle(line("PING\r\n")) {
        Action::Done(Ok(Reply::Message(message))) => assert_eq!(message.data, "PING"),
        other => panic!("no message: {:?}", other),
    }
}

#[test]
fn short_wire_subject_leaves_an_empty_subject() {
    let mut client = subscriber("root", "x");
    client.next_message();
    assert_eq!(client.handle(line("MSG ro 1 2\r\n")), Action::Read);
    match client.handle(line("data\r\n")) {
        Action::Done(Ok(Reply::Message(message))) => assert_eq!(message.subject, ""),
        other => panic!("no message: {:?}", other),
    }
}

#[test]
fn failed_read_subscribes_again_and_fails() {
    let mut client = subscriber("", "demo");
    client.next_message();
    assert_eq!(client.handle(Event::ReadFailed), write("SUB demo 9999\r\n"));
    assert_eq!(client.handle(Event::WriteFailed), write("SUB demo 9999\r\n"));
    assert_eq!(client.handle(Event::Written), Action::Done(Err(Error::Subscribe)));
    assert_eq!(client.next_message(), Action::Read);
}

#[test]
fn failed_read_of_the_payload_subscribes_again_and_fails() {
    let mut client = subscriber("", "demo");
    client.next_message();
    assert_eq!(client.handle(line("MSG demo 9999 5\r\n")), Action::Read);
    assert_eq!(client.handle(Event::ReadFailed), write("SUB demo 9999\r\n"));
    assert_eq!(client.handle(Event::Written), Action::Done(Err(Error::Subscribe)));
}

#[test]
fn subscriber_ping_fails_on_either_step() {
    let mut client = subscriber("", "demo");
    assert_eq!(client.ping(), write("PING\r\n"));
    assert_eq!(client.handle(Event::WriteFailed), Action::Done(Err(Error::Ping)));
    assert_eq!(client.ping(), write("PING\r\n"));
    assert_eq!(client.handle(Event::Written), Action::Read);
    assert_eq!(client.handle(Event::ReadFailed), Action::Done(Err(Error::Ping)));
}

#[test]
fn subscriber_exit_fails_when_not_written() {
    let mut client = subscriber("", "demo");
    assert_eq!(client.exit(), write("EXIT\r\n"));
    assert_eq!(client.handle(Event::WriteFailed), Action::Done(Err(Error::Exit)));
    assert_eq!(client.exit(), write("EXIT\r\n"));
    assert_eq!(client.handle(Event::Written), Action::Done(Ok(Reply::Sent)));
}

#[test]
fn subscriber_repeats_a_request_that_was_not_answered() {
    let mut client = subscriber("", "demo");
    assert_eq!(client.handle(line("PING\r\n")), write("SUB demo 9999\r\n"));
    assert_eq!(client.handle(Event::ReadFailed), write("SUB demo 9999\r\n"));
    client.next_message();
    assert_eq!(client.handle(Event::Written), Action::Read);
    assert_eq!(client.handle(Event::WriteFailed), Action::Read);
    assert_eq!(client.handle(line("PING\r\n")), write("PONG\r\n"));
    assert_eq!(client.handle(line("PING\r\n")), write("PONG\r\n"));
    assert_eq!(client.handle(Event::ReadFailed), write("PONG\r\n"));
    assert_eq!(client.pending(), write("PONG\r\n"));
}

#[test]
fn idle_subscriber_asks_for_nothing() {
    let mut client = subscriber("", "demo");
    assert_eq!(client.handle(Event::Written), Action::Done(Ok(Reply::Subscribed)));
    assert_eq!(client.handle(Event::Written), Action::Idle);
    assert_eq!(client.handle(line("PING\r\n")), Action::Idle);
    assert_eq!(client.handle(Event::ReadFailed), Action::Idle);
    assert_eq!(client.handle(Event::WriteFailed), Action::Idle);
}

#[test]
fn publisher_needs_a_banner() {
    assert_eq!(PublishClient::new(None, "root"), Err(Error::Initialize));
}

#[test]
fn publisher_takes_any_banner() {
    let client = PublishClient::new(Some("whatever"), "root").expect("a publisher");
    assert_eq!(client.root(), "root");
    assert_eq!(client.pending(), Action::Idle);
    assert!(PublishClient::new(Some(""), "").is_ok());
}

#[test]
fn publish_emits_one_frame() {
    let mut client = PublishClient::new(Some(BANNER), "").expect("a publisher");
    assert_eq!(client.publish("demo", "Hello"), write("PUB demo 5\r\nHello\r\n"));
    assert_eq!(client.handle(Event::Written), Action::Done(Ok(Reply::Sent)));
    assert_eq!(client.pending(), Action::Idle);
}

#[test]
fn publish_goes_under_the_root() {
    let mut client = PublishClient::new(Some(BANNER), "root").expect("a publisher");
    assert_eq!(client.publish("x", "{\"a\":1}"), write("PUB root.x 7\r\n{\"a\":1}\r\n"));
}

#[test]
fn publish_fails_without_a_second_try() {
    let mut client = PublishClient::new(Some(BANNER), "").expect("a publisher");
    assert_eq!(client.publish("demo", "Hello"), write("PUB demo 5\r\nHello\r\n"));
    assert_eq!(client.handle(Event::WriteFailed), Action::Done(Err(Error::Publish)));
    assert_eq!(client.pending(), Action::Idle);
}

#[test]
fn publisher_repeats_a_request_that_was_not_answered() {
    let mut client = PublishClient::new(Some(BANNER), "").expect("a publisher");
    client.publish("demo", "Hello");
    assert_eq!(client.handle(line("+OK\r\n")), write("PUB demo 5\r\nHello\r\n"));
    assert_eq!(client.handle(Event::ReadFailed), write("PUB demo 5\r\nHello\r\n"));
    assert_eq!(client.pending(), write("PUB demo 5\r\nHello\r\n"));
    assert_eq!(client.handle(Event::Written), Action::Done(Ok(Reply::Sent)));
    assert_eq!(client.handle(Event::Written), Action::Idle);
}

#[test]
fn publisher_ping_fails_on_either_step() {
    let mut client = PublishClient::new(Some(BANNER), "").expect("a publisher");
    assert_eq!(client.ping(), write("PING\r\n"));
    assert_eq!(client.handle(Event::WriteFailed), Action::Done(Err(Error::Ping)));
    assert_eq!(client.ping(), write("PING\r\n"));
    assert_eq!(client.handle(Event::Written), Action::Read);
    assert_eq!(client.handle(Event::Written), Action::Read);
    assert_eq!(client.handle(Event::ReadFailed), Action::Done(Err(Error::Ping)));
}

#[test]
fn publisher_ping_hands_the_answer_out_unchanged() {
    let mut client = PublishClient::new(Some(BANNER), "").expect("a publisher");
    client.ping();
    client.handle(Event::Written);
    assert_eq!(
        client.handle(line("  anything at all \r\n")),
        Action::Done(Ok(Reply::Pong("  anything at all \r\n".to_string())))
    );
}

#[test]
fn publisher_exit_fails_when_not_written() {
    let mut client = PublishClient::new(Some(BANNER), "").expect("a publisher");
    assert_eq!(client.exit(), write("EXIT\r\n"));
    assert_eq!(client.handle(line("x")), write("EXIT\r\n"));
    assert_eq!(client.handle(Event::WriteFailed), Action::Done(Err(Error::Exit)));
}

fn payload_of(read: &str) -> String {
    let mut client = subscriber("", "demo");
    client.next_message();
    assert_eq!(client.handle(line("MSG demo 9999 5\r\n")), Action::Read);
    match client.handle(line(read)) {
        Action::Done(Ok(Reply::Message(message))) => message.data,
        other => panic!("no message: {:?}", other),
    }
}

#[test]
fn payload_loses_its_terminator_and_nothing_else() {
    assert_eq!(payload_of("Hello\r\n"), "Hello");
    assert_eq!(payload_of("Hello\n"), "Hello");
    assert_eq!(payload_of("Hello"), "Hello");
    assert_eq!(payload_of("  hi  \r\n"), "  hi  ");
    assert_eq!(payload_of("\thi\t\r\n"), "\thi\t");
    assert_eq!(payload_of(" \r\n"), " ");
    assert_eq!(payload_of("\r\n"), "");
    assert_eq!(payload_of(""), "");
    assert_eq!(payload_of("a  b\u{a0}\r\n"), "a  b\u{a0}");
    assert_eq!(payload_of("{\"a\": 1}\r\n"), "{\"a\": 1}");
}

#[test]
fn payload_keeps_a_carriage_return_of_its_own() {
    assert_eq!(payload_of("Hello\r\r\n"), "Hello\r");
    assert_eq!(payload_of("\r\r\n"), "\r");
}

#[test]
fn payload_is_not_cut_to_the_length_of_the_head() {
    assert_eq!(payload_of("longer than five\r\n"), "longer than five");
    assert_eq!(payload_of("abc\r\n"), "abc");
}

#[test]
fn banner_with_an_endless_fraction_makes_no_client() {
    let banner = format!("INFO {{\"client_id\":0.{}}}\r\n", "0".repeat(32769));
    assert_eq!(SubscribeClient::new(Some(&banner), "", "demo"), Err(Error::Initialize));
    let banner = format!("INFO {{\"client_id\":7,\"x\":1.{}}}\r\n", "5".repeat(40000));
    assert_eq!(SubscribeClient::new(Some(&banner), "", "demo"), Err(Error::Initialize));
}

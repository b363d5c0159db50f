use nats_bridge::socket::{strip_terminator, Callback, Fault, Link};

#[test]
fn terminator_is_stripped_once() {
    assert_eq!(strip_terminator("PING\r\n"), "PING");
    assert_eq!(strip_terminator("PING\n"), "PING");
    assert_eq!(strip_terminator("PING\r"), "PING");
    assert_eq!(strip_terminator("PING"), "PING");
    assert_eq!(strip_terminator("PING\r\n\r\n"), "PING\r\n");
    assert_eq!(strip_terminator("PING\n\r\n"), "PING\n");
    assert_eq!(strip_terminator("PING\n\r"), "PING\n");
    assert_eq!(strip_terminator("PING\r\r\n"), "PING\r");
    assert_eq!(strip_terminator("  payload \r\n"), "  payload ");
}

#[test]
fn terminator_of_an_empty_line() {
    assert_eq!(strip_terminator(""), "");
    assert_eq!(strip_terminator("\n"), "");
    assert_eq!(strip_terminator("\r\n"), "");
    assert_eq!(strip_terminator("\r"), "");
}

#[test]
fn terminator_behind_wide_characters() {
    assert_eq!(strip_terminator("größe\r\n"), "größe");
    assert_eq!(strip_terminator("日本\n"), "日本");
}

#[test]
fn new_link_is_down() {
    let link = Link::new();
    assert!(!link.is_up());
    assert_eq!(link.write(Some(4)), Err(Fault::Write));
}

#[test]
fn connect_calls_back_in_order() {
    let mut link = Link::new();
    assert_eq!(link.connect(true), vec![Callback::Initialized, Callback::Connected]);
    assert!(link.is_up());
}

#[test]
fn failed_connect_is_unreachable() {
    let mut link = Link::new();
    assert_eq!(link.connect(false), vec![Callback::Unreachable]);
    assert!(!link.is_up());
    assert_eq!(
        link.readln(Some("INFO {}\r\n".to_string())),
        (Err(Fault::Disconnected), Some(Callback::Disconnected))
    );
}

#[test]
fn read_hands_the_line_out_without_terminator() {
    let mut link = Link::new();
    link.connect(true);
    assert_eq!(link.readln(Some("INFO {}\r\n".to_string())), (Ok("INFO {}".to_string()), None));
    assert_eq!(link.readln(Some("\r\n".to_string())), (Ok(String::new()), None));
    assert!(link.is_up());
}

#[test]
fn failed_read_disconnects() {
    let mut link = Link::new();
    link.connect(true);
    assert_eq!(link.readln(None), (Err(Fault::Disconnected), Some(Callback::Disconnected)));
    assert!(!link.is_up());
    assert_eq!(
        link.readln(Some("late\r\n".to_string())),
        (Err(Fault::Disconnected), Some(Callback::Disconnected))
    );
    assert_eq!(link.write(Some(1)), Err(Fault::Write));
}

#[test]
fn write_reports_the_size() {
    let mut link = Link::new();
    link.connect(true);
    assert_eq!(link.write(Some(6)), Ok(6));
    assert_eq!(link.write(Some(0)), Ok(0));
    assert_eq!(link.write(None), Err(Fault::Write));
    assert!(link.is_up());
}

#[test]
fn disconnect_twice_closes_once() {
    let mut link = Link::new();
    link.connect(true);
    assert!(link.disconnect());
    assert!(!link.disconnect());
    assert!(!link.disconnect());
    assert!(!link.is_up());
    assert!(!Link::new().disconnect());
}

#[test]
fn link_comes_up_again() {
    let mut link = Link::new();
    link.connect(true);
    link.disconnect();
    assert_eq!(link.connect(true), vec![Callback::Initialized, Callback::Connected]);
    assert_eq!(link.write(Some(2)), Ok(2));
}

#[test]
fn raw_read_hands_the_line_out_as_it_came() {
    let mut link = Link::new();
    link.connect(true);
    assert_eq!(link.read_raw(Some("PONG\r\n".to_string())), (Ok("PONG\r\n".to_string()), None));
    assert_eq!(link.read_raw(Some(" x \n".to_string())), (Ok(" x \n".to_string()), None));
    assert!(link.is_up());
}

#[test]
fn failed_raw_read_disconnects() {
    let mut link = Link::new();
    link.connect(true);
    assert_eq!(link.read_raw(None), (Err(Fault::Disconnected), Some(Callback::Disconnected)));
    assert!(!link.is_up());
    assert_eq!(
        link.read_raw(Some("late\r\n".to_string())),
        (Err(Fault::Disconnected), Some(Callback::Disconnected))
    );
}

use nats_bridge::frame::{
    classify, encode_exit, encode_ping, encode_pong, encode_pub, encode_sub, read_banner_info,
    Inbound,
};

#[test]
fn publish_frame_counts_bytes() {
    assert_eq!(encode_pub("demo", "Hello"), "PUB demo 5\r\nHello\r\n");
}

#[test]
fn publish_frame_counts_bytes_not_characters() {
    assert_eq!(encode_pub("demo", "héllo"), "PUB demo 6\r\nhéllo\r\n");
    assert_eq!(encode_pub("demo", "日本"), "PUB demo 6\r\n日本\r\n");
}

#[test]
fn publish_frame_of_an_empty_payload() {
    assert_eq!(encode_pub("demo", ""), "PUB demo 0\r\n\r\n");
}

#[test]
fn publish_frame_of_a_long_payload() {
    let data = "x".repeat(1234);
    assert_eq!(encode_pub("a.b", &data), format!("PUB a.b 1234\r\n{}\r\n", data));
}

#[test]
fn subscribe_frame_names_subject_and_client() {
    assert_eq!(encode_sub("demo", "9999"), "SUB demo 9999\r\n");
    assert_eq!(encode_sub("root.x", "17"), "SUB root.x 17\r\n");
}

#[test]
fn bare_frames() {
    assert_eq!(encode_ping(), "PING\r\n");
    assert_eq!(encode_pong(), "PONG\r\n");
    assert_eq!(encode_exit(), "EXIT\r\n");
}

#[test]
fn classify_ping() {
    assert_eq!(classify("PING\r\n"), Inbound::Ping);
    assert_eq!(classify("PING"), Inbound::Ping);
    assert_eq!(classify("  PING  \r\n"), Inbound::Ping);
    assert_eq!(classify("PING with more words\r\n"), Inbound::Ping);
}

#[test]
fn classify_message_head() {
    assert_eq!(
        classify("MSG demo 9999 5\r\n"),
        Inbound::Header {
            subject: "demo".to_string(),
            my_id: "9999".to_string(),
            sender_id: "5".to_string(),
        }
    );
    assert_eq!(
        classify("\tMSG   root.x\t1  2 "),
        Inbound::Header {
            subject: "root.x".to_string(),
            my_id: "1".to_string(),
            sender_id: "2".to_string(),
        }
    );
}

#[test]
fn classify_message_head_of_another_length() {
    assert_eq!(classify("MSG\r\n"), Inbound::Other);
    assert_eq!(classify("MSG demo\r\n"), Inbound::Other);
    assert_eq!(classify("MSG demo 1\r\n"), Inbound::Other);
    assert_eq!(classify("MSG demo 1 2 3\r\n"), Inbound::Other);
    assert_eq!(classify("MSG demo 1 2 3 4\r\n"), Inbound::Other);
}

#[test]
fn classify_anything_else() {
    assert_eq!(classify(""), Inbound::Other);
    assert_eq!(classify("\r\n"), Inbound::Other);
    assert_eq!(classify("+OK\r\n"), Inbound::Other);
    assert_eq!(classify("PONG\r\n"), Inbound::Other);
    assert_eq!(classify("ping\r\n"), Inbound::Other);
    assert_eq!(classify("msg demo 1 2\r\n"), Inbound::Other);
    assert_eq!(classify("PINGS\r\n"), Inbound::Other);
    assert_eq!(classify("INFO {\"client_id\":9999}\r\n"), Inbound::Other);
}

#[test]
fn banner_info_is_the_second_token() {
    assert_eq!(read_banner_info("INFO {\"client_id\":9999}\r\n"), Some("{\"client_id\":9999}".to_string()));
    assert_eq!(read_banner_info("  a  b  c "), Some("b".to_string()));
}

#[test]
fn banner_info_of_a_short_line() {
    assert_eq!(read_banner_info(""), None);
    assert_eq!(read_banner_info("INFO\r\n"), None);
    assert_eq!(read_banner_info(" \r\n"), None);
}

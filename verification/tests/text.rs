use nats_bridge::text::{char_is_whitespace, decimal_string, split_whitespace, to_chars};

const SAMPLES: [&str; 16] = [
    "",
    " ",
    "PING",
    "PING\r\n",
    "  PING  \r\n",
    "MSG demo 9999 5\r\n",
    "MSG\tdemo\t\t9999   5",
    "\u{a0}MSG\u{2003}root.x\u{3000}1\u{85}2\u{2028}",
    "a",
    " a",
    "a ",
    "a  b",
    "héllo wörld",
    "\r\n\r\n",
    "INFO {\"client_id\":9999} trailing words",
    "日本語 テキスト\u{1680}end",
];

#[test]
fn whitespace_is_the_unicode_property() {
    for code in 0..=0x10FFFFu32 {
        if let Some(c) = char::from_u32(code) {
            assert_eq!(char_is_whitespace(c), c.is_whitespace(), "U+{:04X}", code);
        }
    }
}

#[test]
fn split_whitespace_agrees_with_std() {
    for sample in SAMPLES {
        let expected: Vec<String> = sample.split_whitespace().map(String::from).collect();
        assert_eq!(split_whitespace(sample), expected, "{:?}", sample);
    }
}

#[test]
fn split_whitespace_of_a_message_head() {
    assert_eq!(split_whitespace("MSG demo 9999 5\r\n"), vec!["MSG", "demo", "9999", "5"]);
}

#[test]
fn split_whitespace_of_blank_text_is_empty() {
    assert!(split_whitespace("").is_empty());
    assert!(split_whitespace(" \t\r\n").is_empty());
}

#[test]
fn decimal_string_agrees_with_std() {
    let numbers: [usize; 14] =
        [0, 1, 5, 9, 10, 11, 42, 99, 100, 101, 1000, 1048576, 4294967295, usize::MAX];
    for n in numbers {
        assert_eq!(decimal_string(n), n.to_string());
    }
}

#[test]
fn decimal_string_has_no_leading_zero() {
    assert_eq!(decimal_string(0), "0");
    assert_eq!(decimal_string(7), "7");
    assert_eq!(decimal_string(1005), "1005");
}

#[test]
fn to_chars_lists_characters_not_bytes() {
    assert_eq!(to_chars("héé"), vec!['h', 'é', 'é']);
    assert!(to_chars("").is_empty());
}

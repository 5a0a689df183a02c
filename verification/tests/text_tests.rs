use packet::text::{chars_of, first_line_range, same_text, string_of, trim_range, CharClass};
use packet::widgets::receive_transfer::{
    can_clean_text, can_cut_text_preview, clean_preview_text_payload, clean_text_payload, text_preview,
    text_type_msgid, PREVIEW_BYTES,
};
use packet::widgets::request_dialog::{received_caption, strip_newlines};
use packet::widgets::share_request::{can_unquote_text, preview_description, unquote_text};
use packet::window::{device_name_is_valid, parse_port, port_is_valid};
use packet::protocol::TextPayloadType;

#[test]
fn chars_and_strings_round_trip() {
    let v = chars_of("héllo");
    assert_eq!(v, vec!['h', 'é', 'l', 'l', 'o']);
    assert_eq!(string_of(&v, 1, 4), "éll");
    assert_eq!(string_of(&v, 0, 0), "");
    assert!(same_text("abc", "abc"));
    assert!(!same_text("abc", "abd"));
    assert!(!same_text("abc", "ab"));
}

#[test]
fn trim_and_first_line_ranges() {
    let v = chars_of("  \"hi\"\n ");
    let (a, b) = trim_range(&v, 0, v.len(), CharClass::WhiteSpace);
    assert_eq!(string_of(&v, a, b), "\"hi\"");
    let (c, d) = trim_range(&v, a, b, CharClass::Quote);
    assert_eq!(string_of(&v, c, d), "hi");
    let w = chars_of("one\r\ntwo\nthree");
    let (e, f) = first_line_range(&w, 0, w.len());
    assert_eq!(string_of(&w, e, f), "one");
    let (g, h) = first_line_range(&w, 5, w.len());
    assert_eq!(string_of(&w, g, h), "two");
    let x = chars_of("no newline");
    let (i, j) = first_line_range(&x, 0, x.len());
    assert_eq!(string_of(&x, i, j), "no newline");
}

#[test]
fn clean_text_payload_unwraps_quoted_text() {
    assert_eq!(clean_text_payload("\"hello\"\n"), "hello");
    assert_eq!(clean_text_payload("hello"), "hello");
    assert_eq!(clean_text_payload("\"hello\""), "\"hello\"");
    assert_eq!(clean_text_payload("\"\"\n"), "");
    assert_eq!(clean_text_payload(""), "");
}

#[test]
fn the_payload_made_of_a_quote_and_a_line_feed_cannot_be_cleaned() {
    assert!(!can_clean_text("\"\n"));
    assert!(can_clean_text("\"\"\n"));
    assert!(can_clean_text(""));
    assert!(can_clean_text("plain"));
}

#[test]
fn preview_of_payload_is_its_first_line() {
    assert_eq!(clean_preview_text_payload("\"line one\nline two\"\n"), "line one");
    assert_eq!(clean_preview_text_payload("\n\n\"quoted\"\n"), "quoted");
    assert_eq!(clean_preview_text_payload("\"a\"\r\nb"), "a");
    assert_eq!(clean_preview_text_payload(""), "");
}

#[test]
fn notification_preview_cuts_at_48_bytes() {
    assert_eq!(PREVIEW_BYTES, 48);
    let short = "a".repeat(48);
    assert_eq!(text_preview(&short), short);
    let long = "a".repeat(50);
    assert_eq!(text_preview(&long), format!("{}...", "a".repeat(48)));
    let wide = "é".repeat(25);
    assert!(can_cut_text_preview(&wide));
    assert_eq!(text_preview(&wide), format!("{}...", "é".repeat(24)));
}

#[test]
fn preview_that_would_split_a_character_cannot_be_cut() {
    let s = format!("a{}", "é".repeat(24));
    assert!(!can_cut_text_preview(&s));
    assert!(can_cut_text_preview(&"é".repeat(24)));
    assert!(can_cut_text_preview(""));
}

#[test]
fn description_preview_trims_quotes_and_space() {
    assert_eq!(preview_description("  \"Hello there\nsecond\"  "), "Hello there");
    assert_eq!(preview_description("plain"), "plain");
    assert_eq!(preview_description(" \" \n"), "");
    assert_eq!(preview_description("\"  spaced  \""), "spaced");
}

#[test]
fn unquote_takes_off_the_first_and_last_characters() {
    assert!(can_unquote_text("  \"hi\"\n"));
    assert_eq!(unquote_text("  \"hi\"\n"), "hi");
    assert_eq!(unquote_text("ab"), "");
    assert!(!can_unquote_text(" a "));
    assert!(!can_unquote_text("é\""));
    assert!(!can_unquote_text("\"é"));
    assert!(can_unquote_text("\"é\""));
    assert_eq!(unquote_text("\"é\""), "é");
}

#[test]
fn newlines_are_dropped_from_descriptions() {
    assert_eq!(strip_newlines("a\nb\n\nc"), "abc");
    assert_eq!(strip_newlines("\r\n"), "\r");
    assert_eq!(strip_newlines(""), "");
}

#[test]
fn received_captions_and_kind_names() {
    assert_eq!(received_caption(TextPayloadType::Url), "Received Url");
    assert_eq!(received_caption(TextPayloadType::Text), "Received Text");
    assert_eq!(received_caption(TextPayloadType::Wifi), "Received Wifi");
    assert_eq!(text_type_msgid(&TextPayloadType::Url), "Link");
    assert_eq!(text_type_msgid(&TextPayloadType::Text), "Text");
    assert_eq!(text_type_msgid(&TextPayloadType::Wifi), "Wi-Fi");
}

#[test]
fn device_names_must_have_more_than_white_space() {
    assert!(!device_name_is_valid(""));
    assert!(!device_name_is_valid(" \t\n"));
    assert!(!device_name_is_valid("\u{3000}\u{a0}"));
    assert!(device_name_is_valid(" my laptop "));
}

#[test]
fn ports_are_read_as_u16() {
    assert_eq!(parse_port("8080"), Some(8080));
    assert_eq!(parse_port("+1025"), Some(1025));
    assert_eq!(parse_port("0080"), Some(80));
    assert_eq!(parse_port("65535"), Some(65535));
    assert_eq!(parse_port("65536"), None);
    assert_eq!(parse_port("999999"), None);
    assert_eq!(parse_port(""), None);
    assert_eq!(parse_port("+"), None);
    assert_eq!(parse_port("-1"), None);
    assert_eq!(parse_port("12a"), None);
    assert_eq!(parse_port(" 80"), None);
    for s in ["8080", "+1025", "0080", "65535", "65536", "", "+", "-1", "12a", " 80"] {
        assert_eq!(parse_port(s), s.parse::<u16>().ok());
    }
}

#[test]
fn static_ports_must_be_above_1024() {
    assert!(!port_is_valid("1024"));
    assert!(port_is_valid("1025"));
    assert!(!port_is_valid("80"));
    assert!(!port_is_valid("70000"));
    assert!(!port_is_valid("abc"));
}

#[test]
fn kind_names_come_from_the_catalog() {
    // With no catalog bound, the catalog gives back the message itself.
    assert_eq!(packet::widgets::receive_transfer::display_text_type(&TextPayloadType::Url), "Link");
    assert_eq!(packet::widgets::share_request::display_text_type(&TextPayloadType::Wifi), "Wi-Fi");
}

#[test]
fn an_unnamed_sender_is_an_unknown_device() {
    let msg = packet::protocol::ChannelMessage::empty();
    assert_eq!(packet::objects::ChannelMessage::get_device_name(&msg), "Unknown device");
}

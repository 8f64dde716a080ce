use zero2prod::json::push_escaped_char;
use zero2prod::json::push_string_literal;
use zero2prod::json::write_object;

fn literal(s: &str) -> String {
    let mut out = String::new();
    push_string_literal(&mut out, s);
    out
}

#[test]
fn plain_text_stands_between_quotes() {
    assert_eq!(literal(""), "\"\"");
    assert_eq!(literal("hello"), "\"hello\"");
    assert_eq!(literal("<p>héllo wörld ✉</p>"), "\"<p>héllo wörld ✉</p>\"");
}

#[test]
fn quotes_backslashes_and_controls_are_escaped() {
    assert_eq!(literal("say \"hi\""), r#""say \"hi\"""#);
    assert_eq!(literal("a\\b"), r#""a\\b""#);
    assert_eq!(literal("line\nbreak\r\ttab"), r#""line\nbreak\r\ttab""#);
    assert_eq!(literal("\u{0}\u{8}\u{c}\u{1f}"), r#""\u0000\u0008\u000c\u001f""#);
    assert_eq!(literal("\u{7f} /"), "\"\u{7f} /\"");
}

#[test]
fn a_literal_is_appended_to_what_is_there() {
    let mut out = String::from("x=");
    push_string_literal(&mut out, "1");
    push_escaped_char(&mut out, '"');
    push_escaped_char(&mut out, 'z');
    assert_eq!(out, "x=\"1\"\\\"z");
}

#[test]
fn every_character_reads_back_from_its_literal() {
    for code in 0..=0x10FFFFu32 {
        if let Some(c) = char::from_u32(code) {
            let text = c.to_string();
            let read: String = serde_json::from_str(&literal(&text)).unwrap();
            assert_eq!(read, text, "U+{:04X}", code);
        }
    }
}

#[test]
fn an_object_lists_its_members_in_order() {
    assert_eq!(write_object(&vec![]), "{}");
    assert_eq!(write_object(&vec![("a", "1")]), r#"{"a":"1"}"#);
    assert_eq!(
        write_object(&vec![("a", "1"), ("b \"c\"", "2\n"), ("d", "")]),
        r#"{"a":"1","b \"c\"":"2\n","d":""}"#
    );
}

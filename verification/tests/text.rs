use zero2prod::text::contains_forbidden_character;
use zero2prod::text::is_blank_text;
use zero2prod::text::is_forbidden_character;
use zero2prod::text::is_whitespace_character;

#[test]
fn whitespace_is_what_the_standard_library_calls_whitespace() {
    for code in 0..=0x10FFFFu32 {
        if let Some(c) = char::from_u32(code) {
            assert_eq!(is_whitespace_character(c), c.is_whitespace(), "U+{:04X}", code);
        }
    }
}

#[test]
fn blank_text_is_text_that_trims_to_nothing() {
    for raw in ["", " ", "\t \r\n", "\u{2028}\u{2029}", " a ", "a", "\u{200b}", "\u{feff}"] {
        assert_eq!(is_blank_text(raw), raw.trim().is_empty(), "{:?}", raw);
    }
}

#[test]
fn nine_characters_are_forbidden() {
    let forbidden = ['/', '(', ')', '"', '<', '>', '\\', '{', '}'];
    for code in 0..=0x10FFFFu32 {
        if let Some(c) = char::from_u32(code) {
            assert_eq!(is_forbidden_character(c), forbidden.contains(&c));
        }
    }
}

#[test]
fn a_forbidden_character_is_found_anywhere() {
    assert!(contains_forbidden_character("/abc"));
    assert!(contains_forbidden_character("abc}"));
    assert!(contains_forbidden_character("a<c"));
    assert!(!contains_forbidden_character(""));
    assert!(!contains_forbidden_character("John O'Doe-Smith [jr.]"));
}

use tabnews::internal::headers::is_valid_header_name;
use tabnews::internal::headers::is_valid_header_value;
use tabnews::internal::headers::token_char;
use tabnews::internal::headers::value_char;
use tabnews::internal::headers::MAX_HEADER_NAME_LEN;

#[test]
fn token_characters() {
    for c in "abcxyzABCXYZ0189!#$%&'*+-.^_`|~".chars() {
        assert!(token_char(c), "{}", c);
    }
    for c in " \t\"(),/:;<=>?@[\\]{}\u{7f}\u{0}é".chars() {
        assert!(!token_char(c), "{}", c);
    }
}

#[test]
fn value_characters() {
    assert!(value_char('\t'));
    assert!(value_char(' '));
    assert!(value_char('~'));
    assert!(value_char('é'));
    assert!(!value_char('\n'));
    assert!(!value_char('\r'));
    assert!(!value_char('\u{0}'));
    assert!(!value_char('\u{1f}'));
    assert!(!value_char('\u{7f}'));
}

#[test]
fn header_names() {
    assert!(is_valid_header_name("Cookie"));
    assert!(is_valid_header_name("content-type"));
    assert!(is_valid_header_name("x"));
    assert!(!is_valid_header_name(""));
    assert!(!is_valid_header_name("a b"));
    assert!(!is_valid_header_name("a:b"));
    assert!(!is_valid_header_name("café"));
}

#[test]
fn header_names_have_a_longest() {
    assert!(is_valid_header_name(&"a".repeat(64)));
    assert!(is_valid_header_name(&"a".repeat(65)));
    assert!(is_valid_header_name(&"a".repeat(MAX_HEADER_NAME_LEN)));
    assert!(!is_valid_header_name(&"a".repeat(MAX_HEADER_NAME_LEN + 1)));
}

#[test]
fn header_values() {
    assert!(is_valid_header_value(""));
    assert!(is_valid_header_value("application/json"));
    assert!(is_valid_header_value("session_id=abc def\t"));
    assert!(is_valid_header_value("olá"));
    assert!(!is_valid_header_value("a\nb"));
    assert!(!is_valid_header_value("a\u{7f}"));
}

use zellij_tile::shim::end_line;
use zellij_tile::text::{push_decimal, single_char};

#[test]
fn single_char_is_the_only_character() {
    assert_eq!(single_char("a"), Some('a'));
    assert_eq!(single_char("é"), Some('é'));
    assert_eq!(single_char("←"), Some('←'));
    assert_eq!(single_char(""), None);
    assert_eq!(single_char("ab"), None);
    assert_eq!(single_char("e\u{301}"), None);
}

#[test]
fn push_decimal_appends_the_digits() {
    let mut text = String::from("n=");
    push_decimal(&mut text, 0);
    assert_eq!(text, "n=0");
    push_decimal(&mut text, 7);
    assert_eq!(text, "n=07");
    push_decimal(&mut text, 40);
    assert_eq!(text, "n=0740");
    push_decimal(&mut text, 200);
    assert_eq!(text, "n=0740200");
    push_decimal(&mut text, 255);
    assert_eq!(text, "n=0740200255");
}

#[test]
fn push_decimal_agrees_with_formatting() {
    for n in 0..=255u8 {
        let mut text = String::new();
        push_decimal(&mut text, n);
        assert_eq!(text, format!("{}", n));
    }
}

#[test]
fn end_line_adds_one_newline() {
    assert_eq!(end_line(String::new()), "\n");
    assert_eq!(end_line("[]".to_string()), "[]\n");
    assert_eq!(end_line("a\n".to_string()), "a\n\n");
}

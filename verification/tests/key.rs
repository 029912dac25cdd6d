use serde_json::Value;
use zellij_tile::data::Key;
use zellij_tile::error::BridgeError;
use zellij_tile::shim::{from_line, to_line};

fn every_key() -> Vec<Key> {
    vec![
        Key::Backspace,
        Key::Left,
        Key::Right,
        Key::Up,
        Key::Down,
        Key::Home,
        Key::End,
        Key::PageUp,
        Key::PageDown,
        Key::BackTab,
        Key::Delete,
        Key::Insert,
        Key::F(0),
        Key::F(2),
        Key::F(12),
        Key::F(255),
        Key::Char('a'),
        Key::Char('Z'),
        Key::Char('"'),
        Key::Char('\n'),
        Key::Char('é'),
        Key::Alt('x'),
        Key::Ctrl('c'),
        Key::Null,
        Key::Esc,
    ]
}

fn document(text: &str) -> Value {
    serde_json::from_str(text).unwrap()
}

#[test]
fn display_of_control_keys() {
    assert_eq!(Key::Backspace.to_string(), "BS");
    assert_eq!(Key::Left.to_string(), "←");
    assert_eq!(Key::Right.to_string(), "→");
    assert_eq!(Key::Up.to_string(), "↑");
    assert_eq!(Key::Down.to_string(), "↓");
    assert_eq!(Key::Home.to_string(), "HOME");
    assert_eq!(Key::End.to_string(), "END");
    assert_eq!(Key::PageUp.to_string(), "PGUP");
    assert_eq!(Key::PageDown.to_string(), "PGDN");
    assert_eq!(Key::BackTab.to_string(), "BT");
    assert_eq!(Key::Delete.to_string(), "DEL");
    assert_eq!(Key::Insert.to_string(), "INS");
    assert_eq!(Key::Esc.to_string(), "ESC");
    assert_eq!(Key::Null.to_string(), "");
}

#[test]
fn display_of_function_keys() {
    assert_eq!(Key::F(0).to_string(), "F0");
    assert_eq!(Key::F(2).to_string(), "F2");
    assert_eq!(Key::F(9).to_string(), "F9");
    assert_eq!(Key::F(10).to_string(), "F10");
    assert_eq!(Key::F(12).to_string(), "F12");
    assert_eq!(Key::F(99).to_string(), "F99");
    assert_eq!(Key::F(100).to_string(), "F100");
    assert_eq!(Key::F(107).to_string(), "F107");
    assert_eq!(Key::F(255).to_string(), "F255");
}

#[test]
fn display_of_every_function_key_is_its_decimal() {
    for n in 0..=255u8 {
        assert_eq!(Key::F(n).to_string(), format!("F{}", n));
    }
}

#[test]
fn display_uppercases_characters() {
    assert_eq!(Key::Char('a').to_string(), "A");
    assert_eq!(Key::Char('A').to_string(), "A");
    assert_eq!(Key::Char('1').to_string(), "1");
    assert_eq!(Key::Alt('a').to_string(), "ALT-A");
    assert_eq!(Key::Ctrl('a').to_string(), "Ctrl-A");
    assert_eq!(Key::Ctrl('z').to_string(), "Ctrl-Z");
}

#[test]
fn display_keeps_every_character_of_an_uppercase_mapping() {
    assert_eq!(Key::Char('ß').to_string(), "SS");
    assert_eq!(Key::Alt('ß').to_string(), "ALT-SS");
    assert_eq!(Key::Char('é').to_string(), "É");
}

#[test]
fn key_names() {
    assert_eq!(Key::Backspace.name(), "Backspace");
    assert_eq!(Key::F(3).name(), "F");
    assert_eq!(Key::Char('q').name(), "Char");
    assert_eq!(Key::Alt('q').name(), "Alt");
    assert_eq!(Key::Ctrl('q').name(), "Ctrl");
    assert_eq!(Key::from_name("PageDown"), Some(Key::PageDown));
    assert_eq!(Key::from_name("Esc"), Some(Key::Esc));
    assert_eq!(Key::from_name("esc"), None);
    assert_eq!(Key::from_name("F"), None);
    assert_eq!(Key::from_name(""), None);
}

#[test]
fn key_documents_have_the_wire_form() {
    assert_eq!(to_line(&Key::Backspace.to_json()), "\"Backspace\"\n");
    assert_eq!(to_line(&Key::Null.to_json()), "\"Null\"\n");
    assert_eq!(to_line(&Key::F(2).to_json()), "{\"F\":2}\n");
    assert_eq!(to_line(&Key::F(255).to_json()), "{\"F\":255}\n");
    assert_eq!(to_line(&Key::Char('a').to_json()), "{\"Char\":\"a\"}\n");
    assert_eq!(to_line(&Key::Alt('b').to_json()), "{\"Alt\":\"b\"}\n");
    assert_eq!(to_line(&Key::Ctrl('c').to_json()), "{\"Ctrl\":\"c\"}\n");
    assert_eq!(to_line(&Key::Char('"').to_json()), "{\"Char\":\"\\\"\"}\n");
    assert_eq!(to_line(&Key::Char('\n').to_json()), "{\"Char\":\"\\n\"}\n");
}

#[test]
fn key_round_trips_through_its_document() {
    for key in every_key() {
        assert_eq!(Key::from_json(&key.to_json()), Ok(key));
    }
}

#[test]
fn key_round_trips_through_its_line() {
    for key in every_key() {
        let line = to_line(&key.to_json());
        assert!(line.ends_with('\n'));
        assert_eq!(line.matches('\n').count(), 1);
        let read = from_line(&line).unwrap();
        assert_eq!(Key::from_json(&read), Ok(key));
    }
}

#[test]
fn key_is_read_from_its_wire_form() {
    assert_eq!(Key::from_json(&document("\"Left\"")), Ok(Key::Left));
    assert_eq!(Key::from_json(&document("{\"F\":7}")), Ok(Key::F(7)));
    assert_eq!(Key::from_json(&document("{\"Char\":\"x\"}")), Ok(Key::Char('x')));
    assert_eq!(Key::from_json(&document("{\"Alt\":\"x\"}")), Ok(Key::Alt('x')));
    assert_eq!(Key::from_json(&document("{\"Ctrl\":\"x\"}")), Ok(Key::Ctrl('x')));
    assert_eq!(Key::from_json(&document("{\"Esc\":null}")), Ok(Key::Esc));
}

#[test]
fn key_rejects_what_is_no_key() {
    let malformed = Err(BridgeError::MalformedInput);
    assert_eq!(Key::from_json(&document("\"left\"")), malformed);
    assert_eq!(Key::from_json(&document("\"F\"")), malformed);
    assert_eq!(Key::from_json(&document("\"Char\"")), malformed);
    assert_eq!(Key::from_json(&document("{\"F\":256}")), malformed);
    assert_eq!(Key::from_json(&document("{\"F\":-1}")), malformed);
    assert_eq!(Key::from_json(&document("{\"F\":1.5}")), malformed);
    assert_eq!(Key::from_json(&document("{\"F\":\"1\"}")), malformed);
    assert_eq!(Key::from_json(&document("{\"F\":null}")), malformed);
    assert_eq!(Key::from_json(&document("{\"Char\":\"\"}")), malformed);
    assert_eq!(Key::from_json(&document("{\"Char\":\"ab\"}")), malformed);
    assert_eq!(Key::from_json(&document("{\"Char\":1}")), malformed);
    assert_eq!(Key::from_json(&document("{\"Esc\":1}")), malformed);
    assert_eq!(Key::from_json(&document("{\"Bogus\":null}")), malformed);
    assert_eq!(Key::from_json(&document("{\"F\":1,\"Char\":\"a\"}")), malformed);
    assert_eq!(Key::from_json(&document("{}")), malformed);
    assert_eq!(Key::from_json(&document("[\"Left\"]")), malformed);
    assert_eq!(Key::from_json(&document("null")), malformed);
    assert_eq!(Key::from_json(&document("3")), malformed);
    assert_eq!(Key::from_json(&document("true")), malformed);
}

#[test]
fn function_key_number_is_a_byte() {
    assert_eq!(Key::from_json(&document("{\"F\":0}")), Ok(Key::F(0)));
    assert_eq!(Key::from_json(&document("{\"F\":255}")), Ok(Key::F(255)));
    assert_eq!(
        Key::from_json(&document("{\"F\":18446744073709551615}")),
        Err(BridgeError::MalformedInput)
    );
}

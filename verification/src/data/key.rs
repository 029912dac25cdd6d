//! A single keystroke.

use crate::error::BridgeError;
use crate::json::{
    borrowed_documents, document, entries, from_str, from_u64, tagged, JsonView, NumberView,
};
use crate::text::{
    char_to_string, decimal, push_decimal, single_char, str_eq, to_uppercase, uppercase,
};
use vstd::prelude::*;
use vstd::string::*;

verus! {

/// One keystroke, as the host read it from the terminal.
#[derive(Debug, Copy, Clone, PartialEq, Eq, Hash, Structural)]
pub enum Key {
    Backspace,
    Left,
    Right,
    Up,
    Down,
    Home,
    End,
    PageUp,
    PageDown,
    BackTab,
    Delete,
    Insert,
    /// A function key, with its number.
    F(u8),
    Char(char),
    Alt(char),
    Ctrl(char),
    Null,
    Esc,
}

/// The short form under which a key is shown in a status line.
///
/// Arrow keys are glyphs, a function key is `F` and its number, and a
/// character is shown in upper case behind the name of its modifier.
pub open spec fn key_display(key: Key) -> Seq<char> {
    match key {
        Key::Backspace => "BS"@,
        Key::Left => "←"@,
        Key::Right => "→"@,
        Key::Up => "↑"@,
        Key::Down => "↓"@,
        Key::Home => "HOME"@,
        Key::End => "END"@,
        Key::PageUp => "PGUP"@,
        Key::PageDown => "PGDN"@,
        Key::BackTab => "BT"@,
        Key::Delete => "DEL"@,
        Key::Insert => "INS"@,
        Key::F(n) => "F"@ + decimal(n as nat),
        Key::Char(c) => uppercase(c),
        Key::Alt(c) => "ALT-"@ + uppercase(c),
        Key::Ctrl(c) => "Ctrl-"@ + uppercase(c),
        Key::Esc => "ESC"@,
        Key::Null => Seq::empty(),
    }
}

/// The name of a key's variant, as it stands on the wire.
pub open spec fn key_name(key: Key) -> Seq<char> {
    match key {
        Key::Backspace => "Backspace"@,
        Key::Left => "Left"@,
        Key::Right => "Right"@,
        Key::Up => "Up"@,
        Key::Down => "Down"@,
        Key::Home => "Home"@,
        Key::End => "End"@,
        Key::PageUp => "PageUp"@,
        Key::PageDown => "PageDown"@,
        Key::BackTab => "BackTab"@,
        Key::Delete => "Delete"@,
        Key::Insert => "Insert"@,
        Key::F(_) => "F"@,
        Key::Char(_) => "Char"@,
        Key::Alt(_) => "Alt"@,
        Key::Ctrl(_) => "Ctrl"@,
        Key::Null => "Null"@,
        Key::Esc => "Esc"@,
    }
}

/// The key without payload that a name stands for.
pub open spec fn plain_key(name: Seq<char>) -> Option<Key> {
    if name == "Backspace"@ {
        Some(Key::Backspace)
    } else if name == "Left"@ {
        Some(Key::Left)
    } else if name == "Right"@ {
        Some(Key::Right)
    } else if name == "Up"@ {
        Some(Key::Up)
    } else if name == "Down"@ {
        Some(Key::Down)
    } else if name == "Home"@ {
        Some(Key::Home)
    } else if name == "End"@ {
        Some(Key::End)
    } else if name == "PageUp"@ {
        Some(Key::PageUp)
    } else if name == "PageDown"@ {
        Some(Key::PageDown)
    } else if name == "BackTab"@ {
        Some(Key::BackTab)
    } else if name == "Delete"@ {
        Some(Key::Delete)
    } else if name == "Insert"@ {
        Some(Key::Insert)
    } else if name == "Null"@ {
        Some(Key::Null)
    } else if name == "Esc"@ {
        Some(Key::Esc)
    } else {
        None
    }
}

/// The document of a key: its name where it has no payload, else an object
/// with the name as its one key and the payload under it. A function key's
/// payload is its number, a character's the string that holds it.
pub open spec fn key_json(key: Key) -> JsonView {
    match key {
        Key::F(n) => JsonView::Object(
            seq![(key_name(key), JsonView::Number(NumberView::Unsigned(n as u64)))],
        ),
        Key::Char(c) => JsonView::Object(seq![(key_name(key), JsonView::Str(seq![c]))]),
        Key::Alt(c) => JsonView::Object(seq![(key_name(key), JsonView::Str(seq![c]))]),
        Key::Ctrl(c) => JsonView::Object(seq![(key_name(key), JsonView::Str(seq![c]))]),
        _ => JsonView::Str(key_name(key)),
    }
}

/// The character that a payload holds: it is a string of one character.
pub open spec fn json_char(payload: JsonView) -> Option<char> {
    match payload {
        JsonView::Str(s) => if s.len() == 1 {
            Some(s[0])
        } else {
            None
        },
        _ => None,
    }
}

/// The key that a name and the payload under it stand for.
///
/// A key without payload may be written this way too, with `null` under
/// its name.
pub open spec fn tagged_key(tag: Seq<char>, payload: JsonView) -> Result<Key, BridgeError> {
    if tag == "F"@ {
        match payload {
            JsonView::Number(NumberView::Unsigned(n)) => if n <= 255 {
                Ok(Key::F(n as u8))
            } else {
                Err(BridgeError::MalformedInput)
            },
            _ => Err(BridgeError::MalformedInput),
        }
    } else if tag == "Char"@ {
        match json_char(payload) {
            Some(c) => Ok(Key::Char(c)),
            None => Err(BridgeError::MalformedInput),
        }
    } else if tag == "Alt"@ {
        match json_char(payload) {
            Some(c) => Ok(Key::Alt(c)),
            None => Err(BridgeError::MalformedInput),
        }
    } else if tag == "Ctrl"@ {
        match json_char(payload) {
            Some(c) => Ok(Key::Ctrl(c)),
            None => Err(BridgeError::MalformedInput),
        }
    } else {
        match plain_key(tag) {
            Some(key) => if payload is Null {
                Ok(key)
            } else {
                Err(BridgeError::MalformedInput)
            },
            None => Err(BridgeError::MalformedInput),
        }
    }
}

/// The key that a document stands for, or why it stands for none.
pub open spec fn json_key(json: JsonView) -> Result<Key, BridgeError> {
    match json {
        JsonView::Str(name) => match plain_key(name) {
            Some(key) => Ok(key),
            None => Err(BridgeError::MalformedInput),
        },
        JsonView::Object(entries) => if entries.len() == 1 {
            tagged_key(entries[0].0, entries[0].1)
        } else {
            Err(BridgeError::MalformedInput)
        },
        _ => Err(BridgeError::MalformedInput),
    }
}

/// Reading the document of a key gives the key back.
pub proof fn lemma_key_round_trip(key: Key)
    ensures
        json_key(key_json(key)) == Ok::<Key, BridgeError>(key),
{
    reveal_strlit("Backspace");
    reveal_strlit("Left");
    reveal_strlit("Right");
    reveal_strlit("Up");
    reveal_strlit("Down");
    reveal_strlit("Home");
    reveal_strlit("End");
    reveal_strlit("PageUp");
    reveal_strlit("PageDown");
    reveal_strlit("BackTab");
    reveal_strlit("Delete");
    reveal_strlit("Insert");
    reveal_strlit("F");
    reveal_strlit("Char");
    reveal_strlit("Alt");
    reveal_strlit("Ctrl");
    reveal_strlit("Null");
    reveal_strlit("Esc");
    // Names differ in length, or in the letter that is given here.
    assert("F"@.len() == 1 && "Up"@.len() == 2);
    assert("Alt"@.len() == 3 && "End"@.len() == 3 && "Esc"@.len() == 3);
    assert("End"@[1] == 'n' && "Esc"@[1] == 's');
    assert("Char"@.len() == 4 && "Ctrl"@.len() == 4);
    assert("Char"@[1] == 'h' && "Ctrl"@[1] == 't');
    assert("Left"@.len() == 4 && "Down"@.len() == 4 && "Home"@.len() == 4 && "Null"@.len() == 4);
    assert("Left"@[0] == 'L' && "Down"@[0] == 'D' && "Home"@[0] == 'H' && "Null"@[0] == 'N');
    assert("Right"@.len() == 5);
    assert("Delete"@.len() == 6 && "Insert"@.len() == 6 && "PageUp"@.len() == 6);
    assert("Delete"@[0] == 'D' && "Insert"@[0] == 'I' && "PageUp"@[0] == 'P');
    assert("BackTab"@.len() == 7 && "PageDown"@.len() == 8 && "Backspace"@.len() == 9);
}

impl Key {
    /// The short display form of the key.
    pub fn to_string(&self) -> (shown: String)
        ensures
            shown@ == key_display(*self),
    {
        match *self {
            Key::Backspace => String::from_str("BS"),
            Key::Left => String::from_str("←"),
            Key::Right => String::from_str("→"),
            Key::Up => String::from_str("↑"),
            Key::Down => String::from_str("↓"),
            Key::Home => String::from_str("HOME"),
            Key::End => String::from_str("END"),
            Key::PageUp => String::from_str("PGUP"),
            Key::PageDown => String::from_str("PGDN"),
            Key::BackTab => String::from_str("BT"),
            Key::Delete => String::from_str("DEL"),
            Key::Insert => String::from_str("INS"),
            Key::F(n) => {
                let mut shown = String::from_str("F");
                push_decimal(&mut shown, n);
                shown
            },
            Key::Char(c) => to_uppercase(c),
            Key::Alt(c) => {
                let upper = to_uppercase(c);
                String::from_str("ALT-").concat(upper.as_str())
            },
            Key::Ctrl(c) => {
                let upper = to_uppercase(c);
                String::from_str("Ctrl-").concat(upper.as_str())
            },
            Key::Esc => String::from_str("ESC"),
            Key::Null => String::new(),
        }
    }
    /// The name of the key's variant.
    pub fn name(&self) -> (name: &'static str)
        ensures
            name@ == key_name(*self),
    {
        match *self {
            Key::Backspace => "Backspace",
            Key::Left => "Left",
            Key::Right => "Right",
            Key::Up => "Up",
            Key::Down => "Down",
            Key::Home => "Home",
            Key::End => "End",
            Key::PageUp => "PageUp",
            Key::PageDown => "PageDown",
            Key::BackTab => "BackTab",
            Key::Delete => "Delete",
            Key::Insert => "Insert",
            Key::F(_) => "F",
            Key::Char(_) => "Char",
            Key::Alt(_) => "Alt",
            Key::Ctrl(_) => "Ctrl",
            Key::Null => "Null",
            Key::Esc => "Esc",
        }
    }

    /// The key without payload that a name stands for.
    pub fn from_name(name: &str) -> (key: Option<Key>)
        ensures
            key == plain_key(name@),
    {
        if str_eq(name, "Backspace") {
            Some(Key::Backspace)
        } else if str_eq(name, "Left") {
            Some(Key::Left)
        } else if str_eq(name, "Right") {
            Some(Key::Right)
        } else if str_eq(name, "Up") {
            Some(Key::Up)
        } else if str_eq(name, "Down") {
            Some(Key::Down)
        } else if str_eq(name, "Home") {
            Some(Key::Home)
        } else if str_eq(name, "End") {
            Some(Key::End)
        } else if str_eq(name, "PageUp") {
            Some(Key::PageUp)
        } else if str_eq(name, "PageDown") {
            Some(Key::PageDown)
        } else if str_eq(name, "BackTab") {
            Some(Key::BackTab)
        } else if str_eq(name, "Delete") {
            Some(Key::Delete)
        } else if str_eq(name, "Insert") {
            Some(Key::Insert)
        } else if str_eq(name, "Null") {
            Some(Key::Null)
        } else if str_eq(name, "Esc") {
            Some(Key::Esc)
        } else {
            None
        }
    }

    /// The document of the key.
    pub fn to_json(&self) -> (json: serde_json::Value)
        ensures
            document(json) == key_json(*self),
    {
        match *self {
            Key::F(n) => tagged(self.name(), from_u64(n as u64)),
            Key::Char(c) => tagged(self.name(), from_str(char_to_string(c).as_str())),
            Key::Alt(c) => tagged(self.name(), from_str(char_to_string(c).as_str())),
            Key::Ctrl(c) => tagged(self.name(), from_str(char_to_string(c).as_str())),
            _ => from_str(self.name()),
        }
    }

    /// The key that a document stands for. Any document that is not the
    /// document of a key is malformed.
    pub fn from_json(json: &serde_json::Value) -> (key: Result<Key, BridgeError>)
        ensures
            key == json_key(document(*json)),
    {
        if let Some(name) = json.as_str() {
            return match Key::from_name(name) {
                Some(key) => Ok(key),
                None => Err(BridgeError::MalformedInput),
            };
        }
        match entries(json) {
            Some(entries) => {
                if entries.len() == 1 {
                    assert(borrowed_documents(entries@)[0] == (
                        entries[0].0@,
                        document(*entries[0].1),
                    ));
                    Key::from_tagged(entries[0].0.as_str(), entries[0].1)
                } else {
                    Err(BridgeError::MalformedInput)
                }
            },
            None => Err(BridgeError::MalformedInput),
        }
    }

    fn from_tagged(tag: &str, payload: &serde_json::Value) -> (key: Result<Key, BridgeError>)
        ensures
            key == tagged_key(tag@, document(*payload)),
    {
        if str_eq(tag, "F") {
            match payload.as_u64() {
                Some(n) => if n <= 255 {
                    Ok(Key::F(n as u8))
                } else {
                    Err(BridgeError::MalformedInput)
                },
                None => Err(BridgeError::MalformedInput),
            }
        } else if str_eq(tag, "Char") {
            match read_char(payload) {
                Some(c) => Ok(Key::Char(c)),
                None => Err(BridgeError::MalformedInput),
            }
        } else if str_eq(tag, "Alt") {
            match read_char(payload) {
                Some(c) => Ok(Key::Alt(c)),
                None => Err(BridgeError::MalformedInput),
            }
        } else if str_eq(tag, "Ctrl") {
            match read_char(payload) {
                Some(c) => Ok(Key::Ctrl(c)),
                None => Err(BridgeError::MalformedInput),
            }
        } else {
            match Key::from_name(tag) {
                Some(key) => if payload.is_null() {
                    Ok(key)
                } else {
                    Err(BridgeError::MalformedInput)
                },
                None => Err(BridgeError::MalformedInput),
            }
        }
    }
}

fn read_char(payload: &serde_json::Value) -> (c: Option<char>)
    ensures
        c == json_char(document(*payload)),
{
    match payload.as_str() {
        Some(s) => single_char(s),
        None => None,
    }
}

} // verus!

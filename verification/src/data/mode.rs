//! Input modes and the key bindings shown for them.

use crate::error::BridgeError;
use crate::json::{
    as_plain_variant, document, documents, entries, entry_documents, field, from_entries,
    from_items, from_str, lemma_read_all_error, lemma_read_all_step, lemma_read_all_written,
    lookup, plain_variant, read_all, write_all, JsonView,
};
use crate::text::str_eq;
use vstd::prelude::*;
use vstd::string::*;

verus! {

/// The modes that change how keystrokes are interpreted.
#[derive(Debug, PartialEq, Eq, Hash, Copy, Clone, Structural)]
pub enum InputMode {
    /// Input goes to the terminal, except for the shortcuts that lead to the
    /// other modes.
    Normal,
    /// Input goes to the terminal and every shortcut is disabled, except the
    /// one that leads back to `Normal`.
    Locked,
    /// Resizes the existing panes.
    Resize,
    /// Creates and closes panes, and moves between them.
    Pane,
    /// Creates and closes tabs, and moves between them.
    Tab,
    /// Scrolls up and down within a pane.
    Scroll,
    /// Renames a tab.
    RenameTab,
}

impl Default for InputMode {
    fn default() -> (mode: InputMode)
        ensures
            mode == InputMode::Normal,
    {
        InputMode::Normal
    }
}

/// The name of a mode, as it stands on the wire.
pub open spec fn mode_name(mode: InputMode) -> Seq<char> {
    match mode {
        InputMode::Normal => "Normal"@,
        InputMode::Locked => "Locked"@,
        InputMode::Resize => "Resize"@,
        InputMode::Pane => "Pane"@,
        InputMode::Tab => "Tab"@,
        InputMode::Scroll => "Scroll"@,
        InputMode::RenameTab => "RenameTab"@,
    }
}

/// The second name under which a mode is read: its name in lower case.
pub open spec fn mode_alias(mode: InputMode) -> Seq<char> {
    match mode {
        InputMode::Normal => "normal"@,
        InputMode::Locked => "locked"@,
        InputMode::Resize => "resize"@,
        InputMode::Pane => "pane"@,
        InputMode::Tab => "tab"@,
        InputMode::Scroll => "scroll"@,
        InputMode::RenameTab => "renametab"@,
    }
}

/// Whether a string is the name of a mode or its alias.
pub open spec fn names_mode(name: Seq<char>, mode: InputMode) -> bool {
    name == mode_name(mode) || name == mode_alias(mode)
}

/// The mode that a string names.
pub open spec fn named_mode(name: Seq<char>) -> Option<InputMode> {
    if names_mode(name, InputMode::Normal) {
        Some(InputMode::Normal)
    } else if names_mode(name, InputMode::Locked) {
        Some(InputMode::Locked)
    } else if names_mode(name, InputMode::Resize) {
        Some(InputMode::Resize)
    } else if names_mode(name, InputMode::Pane) {
        Some(InputMode::Pane)
    } else if names_mode(name, InputMode::Tab) {
        Some(InputMode::Tab)
    } else if names_mode(name, InputMode::Scroll) {
        Some(InputMode::Scroll)
    } else if names_mode(name, InputMode::RenameTab) {
        Some(InputMode::RenameTab)
    } else {
        None
    }
}

/// The document of a mode: its name.
pub open spec fn mode_json(mode: InputMode) -> JsonView {
    JsonView::Str(mode_name(mode))
}

/// The mode that a document stands for, or why it stands for none: a name
/// that no mode has is unrecognized, any other document is malformed.
pub open spec fn json_mode(json: JsonView) -> Result<InputMode, BridgeError> {
    match plain_variant(json) {
        Some(name) => match named_mode(name) {
            Some(mode) => Ok(mode),
            None => Err(BridgeError::UnrecognizedName),
        },
        None => Err(BridgeError::MalformedInput),
    }
}

/// Every mode in the order of its declaration.
pub open spec fn all_modes() -> Seq<InputMode> {
    seq![
        InputMode::Normal,
        InputMode::Locked,
        InputMode::Resize,
        InputMode::Pane,
        InputMode::Tab,
        InputMode::Scroll,
        InputMode::RenameTab,
    ]
}

/// A mode is read back from its name and from its alias alike.
pub proof fn lemma_mode_names(mode: InputMode)
    ensures
        named_mode(mode_name(mode)) == Some(mode),
        named_mode(mode_alias(mode)) == Some(mode),
        json_mode(mode_json(mode)) == Ok::<InputMode, BridgeError>(mode),
        json_mode(JsonView::Str(mode_alias(mode))) == Ok::<InputMode, BridgeError>(mode),
{
    reveal_strlit("Normal");
    reveal_strlit("Locked");
    reveal_strlit("Resize");
    reveal_strlit("Pane");
    reveal_strlit("Tab");
    reveal_strlit("Scroll");
    reveal_strlit("RenameTab");
    reveal_strlit("normal");
    reveal_strlit("locked");
    reveal_strlit("resize");
    reveal_strlit("pane");
    reveal_strlit("tab");
    reveal_strlit("scroll");
    reveal_strlit("renametab");
    // Names differ in length, or in the letter that is given here.
    assert("Tab"@.len() == 3 && "tab"@.len() == 3);
    assert("Tab"@[0] == 'T' && "tab"@[0] == 't');
    assert("Pane"@.len() == 4 && "pane"@.len() == 4);
    assert("Pane"@[0] == 'P' && "pane"@[0] == 'p');
    assert("Normal"@.len() == 6 && "Locked"@.len() == 6 && "Resize"@.len() == 6);
    assert("Scroll"@.len() == 6);
    assert("normal"@.len() == 6 && "locked"@.len() == 6 && "resize"@.len() == 6);
    assert("scroll"@.len() == 6);
    assert("Normal"@[0] == 'N' && "Locked"@[0] == 'L' && "Resize"@[0] == 'R');
    assert("Scroll"@[0] == 'S');
    assert("normal"@[0] == 'n' && "locked"@[0] == 'l' && "resize"@[0] == 'r');
    assert("scroll"@[0] == 's');
    assert("RenameTab"@.len() == 9 && "renametab"@.len() == 9);
    assert("RenameTab"@[0] == 'R' && "renametab"@[0] == 'r');
}

/// A string that is neither the name nor the alias of a mode is read as no
/// mode: it is unrecognized.
pub proof fn lemma_mode_unrecognized(name: Seq<char>)
    requires
        forall|mode: InputMode| !names_mode(name, mode),
    ensures
        json_mode(JsonView::Str(name)) == Err::<InputMode, BridgeError>(
            BridgeError::UnrecognizedName,
        ),
{
    assert(!names_mode(name, InputMode::Normal));
    assert(!names_mode(name, InputMode::Locked));
    assert(!names_mode(name, InputMode::Resize));
    assert(!names_mode(name, InputMode::Pane));
    assert(!names_mode(name, InputMode::Tab));
    assert(!names_mode(name, InputMode::Scroll));
    assert(!names_mode(name, InputMode::RenameTab));
}

/// Every mode is among the modes that `variants` lists.
pub proof fn lemma_all_modes(mode: InputMode)
    ensures
        all_modes().contains(mode),
{
    let i: int = match mode {
        InputMode::Normal => 0,
        InputMode::Locked => 1,
        InputMode::Resize => 2,
        InputMode::Pane => 3,
        InputMode::Tab => 4,
        InputMode::Scroll => 5,
        InputMode::RenameTab => 6,
    };
    assert(all_modes()[i] == mode);
}

impl InputMode {
    /// The name of the mode.
    pub fn name(&self) -> (name: &'static str)
        ensures
            name@ == mode_name(*self),
    {
        match *self {
            InputMode::Normal => "Normal",
            InputMode::Locked => "Locked",
            InputMode::Resize => "Resize",
            InputMode::Pane => "Pane",
            InputMode::Tab => "Tab",
            InputMode::Scroll => "Scroll",
            InputMode::RenameTab => "RenameTab",
        }
    }

    /// The mode that a string names, by its name or by its alias.
    pub fn from_name(name: &str) -> (mode: Result<InputMode, BridgeError>)
        ensures
            mode == (match named_mode(name@) {
                Some(mode) => Ok::<InputMode, BridgeError>(mode),
                None => Err(BridgeError::UnrecognizedName),
            }),
    {
        if str_eq(name, "Normal") || str_eq(name, "normal") {
            Ok(InputMode::Normal)
        } else if str_eq(name, "Locked") || str_eq(name, "locked") {
            Ok(InputMode::Locked)
        } else if str_eq(name, "Resize") || str_eq(name, "resize") {
            Ok(InputMode::Resize)
        } else if str_eq(name, "Pane") || str_eq(name, "pane") {
            Ok(InputMode::Pane)
        } else if str_eq(name, "Tab") || str_eq(name, "tab") {
            Ok(InputMode::Tab)
        } else if str_eq(name, "Scroll") || str_eq(name, "scroll") {
            Ok(InputMode::Scroll)
        } else if str_eq(name, "RenameTab") || str_eq(name, "renametab") {
            Ok(InputMode::RenameTab)
        } else {
            Err(BridgeError::UnrecognizedName)
        }
    }

    /// Every mode, in the order of its declaration.
    pub fn variants() -> (modes: Vec<InputMode>)
        ensures
            modes@ == all_modes(),
    {
        let mut modes: Vec<InputMode> = Vec::new();
        modes.push(InputMode::Normal);
        modes.push(InputMode::Locked);
        modes.push(InputMode::Resize);
        modes.push(InputMode::Pane);
        modes.push(InputMode::Tab);
        modes.push(InputMode::Scroll);
        modes.push(InputMode::RenameTab);
        assert(modes@ =~= all_modes());
        modes
    }

    /// The document of the mode.
    pub fn to_json(&self) -> (json: serde_json::Value)
        ensures
            document(json) == mode_json(*self),
    {
        from_str(self.name())
    }

    /// The mode that a document stands for.
    pub fn from_json(json: &serde_json::Value) -> (mode: Result<InputMode, BridgeError>)
        ensures
            mode == json_mode(document(*json)),
    {
        match as_plain_variant(json) {
            Some(name) => InputMode::from_name(name),
            None => Err(BridgeError::MalformedInput),
        }
    }
}

/// What the status bar shows: the current mode and the key bindings that are
/// active in it, each a shortcut with its description.
#[derive(Debug, Clone, PartialEq, Eq)]
pub struct ModeInfo {
    pub mode: InputMode,
    pub keybinds: Vec<(String, String)>,
}

/// A `ModeInfo` as a mathematical value.
pub struct ModeInfoView {
    pub mode: InputMode,
    pub keybinds: Seq<(Seq<char>, Seq<char>)>,
}

/// Key bindings as mathematical values, one for one.
pub open spec fn keybinds_view(keybinds: Seq<(String, String)>) -> Seq<(Seq<char>, Seq<char>)> {
    Seq::new(keybinds.len(), |i: int| (keybinds[i].0@, keybinds[i].1@))
}

impl View for ModeInfo {
    type V = ModeInfoView;

    open spec fn view(&self) -> ModeInfoView {
        ModeInfoView { mode: self.mode, keybinds: keybinds_view(self.keybinds@) }
    }
}

impl Default for ModeInfo {
    fn default() -> (info: ModeInfo)
        ensures
            info@.mode == InputMode::Normal,
            info@.keybinds == Seq::<(Seq<char>, Seq<char>)>::empty(),
    {
        let info = ModeInfo { mode: InputMode::Normal, keybinds: Vec::new() };
        assert(info@.keybinds =~= Seq::empty());
        info
    }
}

/// The document of a key binding: the array of the shortcut and its
/// description.
pub open spec fn keybind_json(keybind: (Seq<char>, Seq<char>)) -> JsonView {
    JsonView::Array(seq![JsonView::Str(keybind.0), JsonView::Str(keybind.1)])
}

/// The key binding that a document stands for: the document is an array of
/// two strings.
pub open spec fn json_keybind(json: JsonView) -> Result<(Seq<char>, Seq<char>), BridgeError> {
    match json {
        JsonView::Array(items) => if items.len() == 2 {
            match (items[0], items[1]) {
                (JsonView::Str(shortcut), JsonView::Str(description)) => Ok(
                    (shortcut, description),
                ),
                _ => Err(BridgeError::MalformedInput),
            }
        } else {
            Err(BridgeError::MalformedInput)
        },
        _ => Err(BridgeError::MalformedInput),
    }
}

/// The key bindings that a document stands for: the document is an array
/// of key bindings.
pub open spec fn json_keybinds(json: JsonView) -> Result<
    Seq<(Seq<char>, Seq<char>)>,
    BridgeError,
> {
    match json {
        JsonView::Array(items) => read_all(items, |item: JsonView| json_keybind(item)),
        _ => Err(BridgeError::MalformedInput),
    }
}

/// The document of a mode with its key bindings: an object with the mode
/// and the array of the key bindings, in this order.
pub open spec fn mode_info_json(info: ModeInfoView) -> JsonView {
    JsonView::Object(
        seq![
            ("mode"@, mode_json(info.mode)),
            (
                "keybinds"@,
                JsonView::Array(
                    write_all(
                        info.keybinds,
                        |keybind: (Seq<char>, Seq<char>)| keybind_json(keybind),
                    ),
                ),
            ),
        ],
    )
}

/// The mode with its key bindings that a document stands for: an object
/// that holds a mode and key bindings. What else it holds is passed over.
/// The mode is read first, and its error comes first.
pub open spec fn json_mode_info(json: JsonView) -> Result<ModeInfoView, BridgeError> {
    match json {
        JsonView::Object(entries) => match lookup(entries, "mode"@) {
            Some(mode) => match json_mode(mode) {
                Ok(mode) => match lookup(entries, "keybinds"@) {
                    Some(keybinds) => match json_keybinds(keybinds) {
                        Ok(keybinds) => Ok(ModeInfoView { mode, keybinds }),
                        Err(error) => Err(error),
                    },
                    None => Err(BridgeError::MalformedInput),
                },
                Err(error) => Err(error),
            },
            None => Err(BridgeError::MalformedInput),
        },
        _ => Err(BridgeError::MalformedInput),
    }
}

/// Reading the document of a mode with its key bindings gives both back.
pub proof fn lemma_mode_info_round_trip(info: ModeInfoView)
    ensures
        json_mode_info(mode_info_json(info)) == Ok::<ModeInfoView, BridgeError>(info),
{
    reveal_strlit("mode");
    reveal_strlit("keybinds");
    assert("mode"@.len() == 4 && "keybinds"@.len() == 8);
    let entries = mode_info_json(info)->Object_0;
    reveal_with_fuel(lookup, 3);
    assert(entries.drop_first()[0] == entries[1]);
    assert(lookup(entries, "mode"@) == Some(entries[0].1));
    assert(lookup(entries, "keybinds"@) == Some(entries[1].1));
    lemma_mode_names(info.mode);
    lemma_read_all_written(
        info.keybinds,
        |keybind: (Seq<char>, Seq<char>)| keybind_json(keybind),
        |item: JsonView| json_keybind(item),
    );
}

fn keybind_to_json(keybind: &(String, String)) -> (json: serde_json::Value)
    ensures
        document(json) == keybind_json((keybind.0@, keybind.1@)),
{
    let mut items: Vec<serde_json::Value> = Vec::new();
    items.push(from_str(keybind.0.as_str()));
    items.push(from_str(keybind.1.as_str()));
    assert(documents(items@) =~= keybind_json((keybind.0@, keybind.1@))->Array_0);
    from_items(items)
}

fn keybind_from_json(json: &serde_json::Value) -> (keybind: Result<(String, String), BridgeError>)
    ensures
        match keybind {
            Ok(keybind) => json_keybind(document(*json)) == Ok::<
                (Seq<char>, Seq<char>),
                BridgeError,
            >((keybind.0@, keybind.1@)),
            Err(error) => json_keybind(document(*json)) == Err::<
                (Seq<char>, Seq<char>),
                BridgeError,
            >(error),
        },
{
    match json.as_array() {
        Some(items) => {
            if items.len() != 2 {
                return Err(BridgeError::MalformedInput);
            }
            match (items[0].as_str(), items[1].as_str()) {
                (Some(shortcut), Some(description)) => Ok(
                    (String::from_str(shortcut), String::from_str(description)),
                ),
                _ => Err(BridgeError::MalformedInput),
            }
        },
        None => Err(BridgeError::MalformedInput),
    }
}

fn keybinds_to_json(keybinds: &Vec<(String, String)>) -> (json: serde_json::Value)
    ensures
        document(json) == JsonView::Array(
            write_all(
                keybinds_view(keybinds@),
                |keybind: (Seq<char>, Seq<char>)| keybind_json(keybind),
            ),
        ),
{
    let mut items: Vec<serde_json::Value> = Vec::new();
    let mut i: usize = 0;
    while i < keybinds.len()
        invariant
            i <= keybinds.len(),
            items@.len() == i,
            forall|k: int|
                0 <= k < i ==> document(#[trigger] items@[k]) == keybind_json(
                    keybinds_view(keybinds@)[k],
                ),
        decreases keybinds.len() - i,
    {
        items.push(keybind_to_json(&keybinds[i]));
        i += 1;
    }
    assert(documents(items@) =~= write_all(
        keybinds_view(keybinds@),
        |keybind: (Seq<char>, Seq<char>)| keybind_json(keybind),
    ));
    from_items(items)
}

fn keybinds_from_json(json: &serde_json::Value) -> (keybinds: Result<
    Vec<(String, String)>,
    BridgeError,
>)
    ensures
        match keybinds {
            Ok(keybinds) => json_keybinds(document(*json)) == Ok::<
                Seq<(Seq<char>, Seq<char>)>,
                BridgeError,
            >(keybinds_view(keybinds@)),
            Err(error) => json_keybinds(document(*json)) == Err::<
                Seq<(Seq<char>, Seq<char>)>,
                BridgeError,
            >(error),
        },
{
    let items = match json.as_array() {
        Some(items) => items,
        None => {
            return Err(BridgeError::MalformedInput);
        },
    };
    let ghost docs = documents(items@);
    let ghost read = |item: JsonView| json_keybind(item);
    let mut keybinds: Vec<(String, String)> = Vec::new();
    let mut i: usize = 0;
    assert(keybinds_view(keybinds@) =~= Seq::empty());
    while i < items.len()
        invariant
            i <= items.len(),
            docs == documents(items@),
            document(*json) == JsonView::Array(docs),
            read == |item: JsonView| json_keybind(item),
            read_all(docs.take(i as int), read) == Ok::<Seq<(Seq<char>, Seq<char>)>, BridgeError>(
                keybinds_view(keybinds@),
            ),
        decreases items.len() - i,
    {
        proof {
            lemma_read_all_step(docs, read, i as int);
        }
        match keybind_from_json(&items[i]) {
            Ok(keybind) => {
                let ghost before = keybinds_view(keybinds@);
                keybinds.push(keybind);
                assert(keybinds_view(keybinds@) =~= before.push((keybind.0@, keybind.1@)));
            },
            Err(error) => {
                proof {
                    lemma_read_all_error(docs, read, i + 1);
                }
                return Err(error);
            },
        }
        i += 1;
    }
    assert(docs.take(i as int) =~= docs);
    Ok(keybinds)
}

impl ModeInfo {
    /// The document of the mode with its key bindings.
    pub fn to_json(&self) -> (json: serde_json::Value)
        ensures
            document(json) == mode_info_json(self@),
    {
        let mut entries: Vec<(String, serde_json::Value)> = Vec::new();
        entries.push((String::from_str("mode"), self.mode.to_json()));
        entries.push((String::from_str("keybinds"), keybinds_to_json(&self.keybinds)));
        proof {
            reveal_strlit("mode");
            reveal_strlit("keybinds");
            assert("mode"@.len() == 4 && "keybinds"@.len() == 8);
            assert(entry_documents(entries@) =~= mode_info_json(self@)->Object_0);
        }
        from_entries(entries)
    }

    /// The mode with its key bindings that a document stands for.
    pub fn from_json(json: &serde_json::Value) -> (info: Result<ModeInfo, BridgeError>)
        ensures
            match info {
                Ok(info) => json_mode_info(document(*json)) == Ok::<ModeInfoView, BridgeError>(
                    info@,
                ),
                Err(error) => json_mode_info(document(*json)) == Err::<ModeInfoView, BridgeError>(
                    error,
                ),
            },
    {
        let entries = match entries(json) {
            Some(entries) => entries,
            None => {
                return Err(BridgeError::MalformedInput);
            },
        };
        let mode = match field(&entries, "mode") {
            Some(found) => match InputMode::from_json(found) {
                Ok(mode) => mode,
                Err(error) => {
                    return Err(error);
                },
            },
            None => {
                return Err(BridgeError::MalformedInput);
            },
        };
        match field(&entries, "keybinds") {
            Some(found) => match keybinds_from_json(found) {
                Ok(keybinds) => Ok(ModeInfo { mode, keybinds }),
                Err(error) => Err(error),
            },
            None => Err(BridgeError::MalformedInput),
        }
    }
}

} // verus!

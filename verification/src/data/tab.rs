//! What a plugin may know of a tab.

use crate::error::BridgeError;
use crate::json::{
    document, entries, entry_documents, field, from_bool, from_entries, from_str, from_u64, lookup,
    JsonView, NumberView,
};
use vstd::prelude::*;
use vstd::string::*;

verus! {

/// The part of a tab's state that the host publishes to plugins.
#[derive(Debug, Clone, PartialEq, Eq)]
pub struct TabInfo {
    /// The place of the tab in the tab bar, counted from zero.
    pub position: usize,
    pub name: String,
    pub active: bool,
}

/// A `TabInfo` as a mathematical value.
pub struct TabInfoView {
    pub position: usize,
    pub name: Seq<char>,
    pub active: bool,
}

impl View for TabInfo {
    type V = TabInfoView;

    open spec fn view(&self) -> TabInfoView {
        TabInfoView { position: self.position, name: self.name@, active: self.active }
    }
}

/// Tabs as mathematical values, one for one.
pub open spec fn tabs_view(tabs: Seq<TabInfo>) -> Seq<TabInfoView> {
    Seq::new(tabs.len(), |i: int| tabs[i]@)
}

impl Default for TabInfo {
    fn default() -> (tab: TabInfo)
        ensures
            tab@.position == 0,
            tab@.name == Seq::<char>::empty(),
            !tab@.active,
    {
        TabInfo { position: 0, name: String::new(), active: false }
    }
}

/// The document of a tab: an object with its position, its name and
/// whether it is active, in this order.
pub open spec fn tab_json(tab: TabInfoView) -> JsonView {
    JsonView::Object(
        seq![
            ("position"@, JsonView::Number(NumberView::Unsigned(tab.position as u64))),
            ("name"@, JsonView::Str(tab.name)),
            ("active"@, JsonView::Bool(tab.active)),
        ],
    )
}

/// The position that an object holds: an integer that fits `usize`.
pub open spec fn json_position(entries: Seq<(Seq<char>, JsonView)>) -> Option<usize> {
    match lookup(entries, "position"@) {
        Some(JsonView::Number(NumberView::Unsigned(n))) => if n <= usize::MAX {
            Some(n as usize)
        } else {
            None
        },
        _ => None,
    }
}

/// The name that an object holds: a string.
pub open spec fn json_name(entries: Seq<(Seq<char>, JsonView)>) -> Option<Seq<char>> {
    match lookup(entries, "name"@) {
        Some(JsonView::Str(name)) => Some(name),
        _ => None,
    }
}

/// The activity that an object holds: a truth value.
pub open spec fn json_active(entries: Seq<(Seq<char>, JsonView)>) -> Option<bool> {
    match lookup(entries, "active"@) {
        Some(JsonView::Bool(active)) => Some(active),
        _ => None,
    }
}

/// The tab that a document stands for: an object that holds a position, a
/// name and an activity. What else it holds is passed over. Any other
/// document is malformed.
pub open spec fn json_tab(json: JsonView) -> Result<TabInfoView, BridgeError> {
    match json {
        JsonView::Object(entries) => {
            let position = json_position(entries);
            let name = json_name(entries);
            let active = json_active(entries);
            if position is Some && name is Some && active is Some {
                Ok(
                    TabInfoView {
                        position: position.unwrap(),
                        name: name.unwrap(),
                        active: active.unwrap(),
                    },
                )
            } else {
                Err(BridgeError::MalformedInput)
            }
        },
        _ => Err(BridgeError::MalformedInput),
    }
}

/// Reading the document of a tab gives the tab back.
pub proof fn lemma_tab_round_trip(tab: TabInfoView)
    ensures
        json_tab(tab_json(tab)) == Ok::<TabInfoView, BridgeError>(tab),
{
    reveal_strlit("position");
    reveal_strlit("name");
    reveal_strlit("active");
    assert("position"@.len() == 8 && "name"@.len() == 4 && "active"@.len() == 6);
    let entries = tab_json(tab)->Object_0;
    reveal_with_fuel(lookup, 4);
    assert(entries.drop_first()[0] == entries[1]);
    assert(entries.drop_first().drop_first()[0] == entries[2]);
    assert(lookup(entries, "position"@) == Some(entries[0].1));
    assert(lookup(entries, "name"@) == Some(entries[1].1));
    assert(lookup(entries, "active"@) == Some(entries[2].1));
}

impl TabInfo {
    /// The document of the tab.
    pub fn to_json(&self) -> (json: serde_json::Value)
        ensures
            document(json) == tab_json(self@),
    {
        let mut entries: Vec<(String, serde_json::Value)> = Vec::new();
        entries.push((String::from_str("position"), from_u64(self.position as u64)));
        entries.push((String::from_str("name"), from_str(self.name.as_str())));
        entries.push((String::from_str("active"), from_bool(self.active)));
        proof {
            reveal_strlit("position");
            reveal_strlit("name");
            reveal_strlit("active");
            assert("position"@.len() == 8 && "name"@.len() == 4 && "active"@.len() == 6);
            assert(entry_documents(entries@) =~= tab_json(self@)->Object_0);
        }
        from_entries(entries)
    }

    /// The tab that a document stands for.
    pub fn from_json(json: &serde_json::Value) -> (tab: Result<TabInfo, BridgeError>)
        ensures
            match tab {
                Ok(tab) => json_tab(document(*json)) == Ok::<TabInfoView, BridgeError>(tab@),
                Err(error) => json_tab(document(*json)) == Err::<TabInfoView, BridgeError>(error),
            },
    {
        let entries = match entries(json) {
            Some(entries) => entries,
            None => {
                return Err(BridgeError::MalformedInput);
            },
        };
        let position = match field(&entries, "position") {
            Some(found) => match found.as_u64() {
                Some(n) => {
                    if n > usize::MAX as u64 {
                        return Err(BridgeError::MalformedInput);
                    }
                    n as usize
                },
                None => {
                    return Err(BridgeError::MalformedInput);
                },
            },
            None => {
                return Err(BridgeError::MalformedInput);
            },
        };
        let name = match field(&entries, "name") {
            Some(found) => match found.as_str() {
                Some(name) => String::from_str(name),
                None => {
                    return Err(BridgeError::MalformedInput);
                },
            },
            None => {
                return Err(BridgeError::MalformedInput);
            },
        };
        let active = match field(&entries, "active") {
            Some(found) => match found.as_bool() {
                Some(active) => active,
                None => {
                    return Err(BridgeError::MalformedInput);
                },
            },
            None => {
                return Err(BridgeError::MalformedInput);
            },
        };
        Ok(TabInfo { position, name, active })
    }
}

} // verus!

//! The events that the host pushes to a subscribed plugin.

use crate::data::key::{json_key, key_json, lemma_key_round_trip, Key};
use crate::data::mode::{
    json_mode_info, lemma_mode_info_round_trip, mode_info_json, ModeInfo, ModeInfoView,
};
use crate::data::tab::{json_tab, lemma_tab_round_trip, tab_json, tabs_view, TabInfo, TabInfoView};
use crate::error::BridgeError;
use crate::json::{
    as_plain_variant, borrowed_documents, document, documents, entries, from_items, from_str,
    lemma_read_all_error, lemma_read_all_step, lemma_read_all_written, plain_variant, read_all,
    tagged, write_all, JsonView,
};
use crate::text::str_eq;
use vstd::prelude::*;
use vstd::string::*;

verus! {

/// What happened, with its payload.
#[derive(Debug, Clone, PartialEq, Eq)]
pub enum Event {
    ModeUpdate(ModeInfo),
    TabUpdate(Vec<TabInfo>),
    KeyPress(Key),
}

/// The kind of an event, without its payload. A plugin subscribes by kind.
#[derive(Debug, Clone, Copy, PartialEq, Eq, Hash, Structural)]
pub enum EventType {
    ModeUpdate,
    TabUpdate,
    KeyPress,
}

/// An `Event` as a mathematical value.
pub enum EventView {
    ModeUpdate(ModeInfoView),
    TabUpdate(Seq<TabInfoView>),
    KeyPress(Key),
}

impl View for Event {
    type V = EventView;

    open spec fn view(&self) -> EventView {
        match self {
            Event::ModeUpdate(info) => EventView::ModeUpdate(info@),
            Event::TabUpdate(tabs) => EventView::TabUpdate(tabs_view(tabs@)),
            Event::KeyPress(key) => EventView::KeyPress(*key),
        }
    }
}

/// The kind of an event.
pub open spec fn event_type_of(event: EventView) -> EventType {
    match event {
        EventView::ModeUpdate(_) => EventType::ModeUpdate,
        EventView::TabUpdate(_) => EventType::TabUpdate,
        EventView::KeyPress(_) => EventType::KeyPress,
    }
}

/// The name of a kind of event, as it stands on the wire.
pub open spec fn event_type_name(kind: EventType) -> Seq<char> {
    match kind {
        EventType::ModeUpdate => "ModeUpdate"@,
        EventType::TabUpdate => "TabUpdate"@,
        EventType::KeyPress => "KeyPress"@,
    }
}

/// The kind of event that a string names.
pub open spec fn named_event_type(name: Seq<char>) -> Option<EventType> {
    if name == "ModeUpdate"@ {
        Some(EventType::ModeUpdate)
    } else if name == "TabUpdate"@ {
        Some(EventType::TabUpdate)
    } else if name == "KeyPress"@ {
        Some(EventType::KeyPress)
    } else {
        None
    }
}

/// The document of a kind of event: its name.
pub open spec fn event_type_json(kind: EventType) -> JsonView {
    JsonView::Str(event_type_name(kind))
}

/// The kind of event that a document stands for, or why it stands for
/// none: a name that no kind has is unrecognized, any other document is
/// malformed.
pub open spec fn json_event_type(json: JsonView) -> Result<EventType, BridgeError> {
    match plain_variant(json) {
        Some(name) => match named_event_type(name) {
            Some(kind) => Ok(kind),
            None => Err(BridgeError::UnrecognizedName),
        },
        None => Err(BridgeError::MalformedInput),
    }
}

/// The document of a list of kinds: the array of their names, in order.
pub open spec fn event_types_json(kinds: Seq<EventType>) -> JsonView {
    JsonView::Array(write_all(kinds, |kind: EventType| event_type_json(kind)))
}

/// The list of kinds that a document stands for: the document is an array
/// of kinds.
pub open spec fn json_event_types(json: JsonView) -> Result<Seq<EventType>, BridgeError> {
    match json {
        JsonView::Array(items) => read_all(items, |item: JsonView| json_event_type(item)),
        _ => Err(BridgeError::MalformedInput),
    }
}

/// The document of an event: an object with the name of its kind as its
/// one key, and the document of the payload under it.
pub open spec fn event_json(event: EventView) -> JsonView {
    JsonView::Object(
        seq![
            (
                event_type_name(event_type_of(event)),
                match event {
                    EventView::ModeUpdate(info) => mode_info_json(info),
                    EventView::TabUpdate(tabs) => JsonView::Array(
                        write_all(tabs, |tab: TabInfoView| tab_json(tab)),
                    ),
                    EventView::KeyPress(key) => key_json(key),
                },
            ),
        ],
    )
}

/// The tabs that a document stands for: the document is an array of tabs.
pub open spec fn json_tabs(json: JsonView) -> Result<Seq<TabInfoView>, BridgeError> {
    match json {
        JsonView::Array(items) => read_all(items, |item: JsonView| json_tab(item)),
        _ => Err(BridgeError::MalformedInput),
    }
}

/// The event that the name of a kind and the payload under it stand for.
pub open spec fn tagged_event(tag: Seq<char>, payload: JsonView) -> Result<EventView, BridgeError> {
    match named_event_type(tag) {
        Some(EventType::ModeUpdate) => match json_mode_info(payload) {
            Ok(info) => Ok(EventView::ModeUpdate(info)),
            Err(error) => Err(error),
        },
        Some(EventType::TabUpdate) => match json_tabs(payload) {
            Ok(tabs) => Ok(EventView::TabUpdate(tabs)),
            Err(error) => Err(error),
        },
        Some(EventType::KeyPress) => match json_key(payload) {
            Ok(key) => Ok(EventView::KeyPress(key)),
            Err(error) => Err(error),
        },
        None => Err(BridgeError::MalformedInput),
    }
}

/// The event that a document stands for, or why it stands for none. A
/// document that is not an object with one entry, or whose key names no
/// kind of event, is malformed; else the payload decides.
pub open spec fn json_event(json: JsonView) -> Result<EventView, BridgeError> {
    match json {
        JsonView::Object(entries) => if entries.len() == 1 {
            tagged_event(entries[0].0, entries[0].1)
        } else {
            Err(BridgeError::MalformedInput)
        },
        _ => Err(BridgeError::MalformedInput),
    }
}

/// A kind of event is read back from its name, and from its document.
pub proof fn lemma_event_type_names(kind: EventType)
    ensures
        named_event_type(event_type_name(kind)) == Some(kind),
        json_event_type(event_type_json(kind)) == Ok::<EventType, BridgeError>(kind),
{
    reveal_strlit("ModeUpdate");
    reveal_strlit("TabUpdate");
    reveal_strlit("KeyPress");
    assert("ModeUpdate"@.len() == 10 && "TabUpdate"@.len() == 9 && "KeyPress"@.len() == 8);
}

/// Reading the document of a list of kinds gives the list back.
pub proof fn lemma_event_types_round_trip(kinds: Seq<EventType>)
    ensures
        json_event_types(event_types_json(kinds)) == Ok::<Seq<EventType>, BridgeError>(kinds),
{
    assert forall|i: int| 0 <= i < kinds.len() implies json_event_type(
        event_type_json(#[trigger] kinds[i]),
    ) == Ok::<EventType, BridgeError>(kinds[i]) by {
        lemma_event_type_names(kinds[i]);
    }
    lemma_read_all_written(
        kinds,
        |kind: EventType| event_type_json(kind),
        |item: JsonView| json_event_type(item),
    );
}

/// Reading the document of an event gives the event back, and with it the
/// kind under which it was written.
pub proof fn lemma_event_round_trip(event: EventView)
    ensures
        json_event(event_json(event)) == Ok::<EventView, BridgeError>(event),
        json_event(event_json(event)) matches Ok(read) && event_type_of(read) == event_type_of(
            event,
        ),
{
    lemma_event_type_names(event_type_of(event));
    match event {
        EventView::ModeUpdate(info) => {
            lemma_mode_info_round_trip(info);
        },
        EventView::TabUpdate(tabs) => {
            assert forall|i: int| 0 <= i < tabs.len() implies json_tab(
                tab_json(#[trigger] tabs[i]),
            ) == Ok::<TabInfoView, BridgeError>(tabs[i]) by {
                lemma_tab_round_trip(tabs[i]);
            }
            lemma_read_all_written(
                tabs,
                |tab: TabInfoView| tab_json(tab),
                |item: JsonView| json_tab(item),
            );
        },
        EventView::KeyPress(key) => {
            lemma_key_round_trip(key);
        },
    }
}

/// The key of an event's document names the kind of the event that is read
/// from it.
pub proof fn lemma_event_tag(json: JsonView)
    requires
        json_event(json) is Ok,
    ensures
        json matches JsonView::Object(entries) && entries.len() == 1 && entries[0].0
            == event_type_name(event_type_of(json_event(json).unwrap())),
{
}

fn tabs_to_json(tabs: &Vec<TabInfo>) -> (json: serde_json::Value)
    ensures
        document(json) == JsonView::Array(
            write_all(tabs_view(tabs@), |tab: TabInfoView| tab_json(tab)),
        ),
{
    let mut items: Vec<serde_json::Value> = Vec::new();
    let mut i: usize = 0;
    while i < tabs.len()
        invariant
            i <= tabs.len(),
            items@.len() == i,
            forall|k: int| 0 <= k < i ==> document(#[trigger] items@[k]) == tab_json(tabs@[k]@),
        decreases tabs.len() - i,
    {
        items.push(tabs[i].to_json());
        i += 1;
    }
    assert(documents(items@) =~= write_all(tabs_view(tabs@), |tab: TabInfoView| tab_json(tab)));
    from_items(items)
}

fn tabs_from_json(json: &serde_json::Value) -> (tabs: Result<Vec<TabInfo>, BridgeError>)
    ensures
        match tabs {
            Ok(tabs) => json_tabs(document(*json)) == Ok::<Seq<TabInfoView>, BridgeError>(
                tabs_view(tabs@),
            ),
            Err(error) => json_tabs(document(*json)) == Err::<Seq<TabInfoView>, BridgeError>(error),
        },
{
    let items = match json.as_array() {
        Some(items) => items,
        None => {
            return Err(BridgeError::MalformedInput);
        },
    };
    let ghost docs = documents(items@);
    let ghost read = |item: JsonView| json_tab(item);
    let mut tabs: Vec<TabInfo> = Vec::new();
    let mut i: usize = 0;
    assert(tabs_view(tabs@) =~= Seq::empty());
    while i < items.len()
        invariant
            i <= items.len(),
            docs == documents(items@),
            document(*json) == JsonView::Array(docs),
            read == |item: JsonView| json_tab(item),
            read_all(docs.take(i as int), read) == Ok::<Seq<TabInfoView>, BridgeError>(
                tabs_view(tabs@),
            ),
        decreases items.len() - i,
    {
        proof {
            lemma_read_all_step(docs, read, i as int);
        }
        match TabInfo::from_json(&items[i]) {
            Ok(tab) => {
                let ghost before = tabs_view(tabs@);
                tabs.push(tab);
                assert(tabs_view(tabs@) =~= before.push(tab@));
            },
            Err(error) => {
                proof {
                    lemma_read_all_error(docs, read, i + 1);
                }
                return Err(error);
            },
        }
        i += 1;
    }
    assert(docs.take(i as int) =~= docs);
    Ok(tabs)
}

impl EventType {
    /// The name of the kind.
    pub fn name(&self) -> (name: &'static str)
        ensures
            name@ == event_type_name(*self),
    {
        match *self {
            EventType::ModeUpdate => "ModeUpdate",
            EventType::TabUpdate => "TabUpdate",
            EventType::KeyPress => "KeyPress",
        }
    }

    /// The kind of event that a string names.
    pub fn from_str(name: &str) -> (kind: Result<EventType, BridgeError>)
        ensures
            kind == (match named_event_type(name@) {
                Some(kind) => Ok::<EventType, BridgeError>(kind),
                None => Err(BridgeError::UnrecognizedName),
            }),
    {
        if str_eq(name, "ModeUpdate") {
            Ok(EventType::ModeUpdate)
        } else if str_eq(name, "TabUpdate") {
            Ok(EventType::TabUpdate)
        } else if str_eq(name, "KeyPress") {
            Ok(EventType::KeyPress)
        } else {
            Err(BridgeError::UnrecognizedName)
        }
    }

    /// The document of the kind.
    pub fn to_json(&self) -> (json: serde_json::Value)
        ensures
            document(json) == event_type_json(*self),
    {
        from_str(self.name())
    }

    /// The kind of event that a document stands for.
    pub fn from_json(json: &serde_json::Value) -> (kind: Result<EventType, BridgeError>)
        ensures
            kind == json_event_type(document(*json)),
    {
        match as_plain_variant(json) {
            Some(name) => EventType::from_str(name),
            None => Err(BridgeError::MalformedInput),
        }
    }

    /// The document of a list of kinds.
    pub fn list_to_json(kinds: &[EventType]) -> (json: serde_json::Value)
        ensures
            document(json) == event_types_json(kinds@),
    {
        let mut items: Vec<serde_json::Value> = Vec::new();
        let mut i: usize = 0;
        while i < kinds.len()
            invariant
                i <= kinds.len(),
                items@.len() == i,
                forall|k: int|
                    0 <= k < i ==> document(#[trigger] items@[k]) == event_type_json(kinds@[k]),
            decreases kinds.len() - i,
        {
            items.push(kinds[i].to_json());
            i += 1;
        }
        assert(documents(items@) =~= write_all(kinds@, |kind: EventType| event_type_json(kind)));
        from_items(items)
    }

    /// The list of kinds that a document stands for.
    pub fn list_from_json(json: &serde_json::Value) -> (kinds: Result<
        Vec<EventType>,
        BridgeError,
    >)
        ensures
            match kinds {
                Ok(kinds) => json_event_types(document(*json)) == Ok::<
                    Seq<EventType>,
                    BridgeError,
                >(kinds@),
                Err(error) => json_event_types(document(*json)) == Err::<
                    Seq<EventType>,
                    BridgeError,
                >(error),
            },
    {
        let items = match json.as_array() {
            Some(items) => items,
            None => {
                return Err(BridgeError::MalformedInput);
            },
        };
        let ghost docs = documents(items@);
        let ghost read = |item: JsonView| json_event_type(item);
        let mut kinds: Vec<EventType> = Vec::new();
        let mut i: usize = 0;
        while i < items.len()
            invariant
                i <= items.len(),
                docs == documents(items@),
                document(*json) == JsonView::Array(docs),
                read == |item: JsonView| json_event_type(item),
                read_all(docs.take(i as int), read) == Ok::<Seq<EventType>, BridgeError>(kinds@),
            decreases items.len() - i,
        {
            proof {
                lemma_read_all_step(docs, read, i as int);
            }
            match EventType::from_json(&items[i]) {
                Ok(kind) => {
                    kinds.push(kind);
                },
                Err(error) => {
                    proof {
                        lemma_read_all_error(docs, read, i + 1);
                    }
                    return Err(error);
                },
            }
            i += 1;
        }
        assert(docs.take(i as int) =~= docs);
        Ok(kinds)
    }
}

impl Event {
    /// The kind of this event.
    pub fn event_type(&self) -> (kind: EventType)
        ensures
            kind == event_type_of(self@),
    {
        match self {
            Event::ModeUpdate(_) => EventType::ModeUpdate,
            Event::TabUpdate(_) => EventType::TabUpdate,
            Event::KeyPress(_) => EventType::KeyPress,
        }
    }

    /// The name of the event's kind.
    pub fn to_string(&self) -> (name: String)
        ensures
            name@ == event_type_name(event_type_of(self@)),
    {
        String::from_str(self.event_type().name())
    }

    /// The document of the event.
    pub fn to_json(&self) -> (json: serde_json::Value)
        ensures
            document(json) == event_json(self@),
    {
        let payload = match self {
            Event::ModeUpdate(info) => info.to_json(),
            Event::TabUpdate(tabs) => tabs_to_json(tabs),
            Event::KeyPress(key) => key.to_json(),
        };
        tagged(self.event_type().name(), payload)
    }

    /// The event that a document stands for.
    pub fn from_json(json: &serde_json::Value) -> (event: Result<Event, BridgeError>)
        ensures
            match event {
                Ok(event) => json_event(document(*json)) == Ok::<EventView, BridgeError>(event@),
                Err(error) => json_event(document(*json)) == Err::<EventView, BridgeError>(error),
            },
    {
        let entries = match entries(json) {
            Some(entries) => entries,
            None => {
                return Err(BridgeError::MalformedInput);
            },
        };
        if entries.len() != 1 {
            return Err(BridgeError::MalformedInput);
        }
        assert(borrowed_documents(entries@)[0] == (entries[0].0@, document(*entries[0].1)));
        let payload = entries[0].1;
        match EventType::from_str(entries[0].0.as_str()) {
            Ok(EventType::ModeUpdate) => match ModeInfo::from_json(payload) {
                Ok(info) => Ok(Event::ModeUpdate(info)),
                Err(error) => Err(error),
            },
            Ok(EventType::TabUpdate) => match tabs_from_json(payload) {
                Ok(tabs) => Ok(Event::TabUpdate(tabs)),
                Err(error) => Err(error),
            },
            Ok(EventType::KeyPress) => match Key::from_json(payload) {
                Ok(key) => Ok(Event::KeyPress(key)),
                Err(error) => Err(error),
            },
            Err(_) => Err(BridgeError::MalformedInput),
        }
    }
}

} // verus!

//! The identity of a plugin.

use crate::error::BridgeError;
use crate::json::{document, entries, field, lookup, JsonView};
use vstd::prelude::*;

verus! {

/// The identity of the plugin, as the host gives it: a record whose fields
/// are the host's affair.
#[derive(Debug, PartialEq, Eq)]
pub struct PluginIds {
    record: serde_json::Value,
}

impl View for PluginIds {
    type V = Seq<(Seq<char>, JsonView)>;

    closed spec fn view(&self) -> Seq<(Seq<char>, JsonView)> {
        match document(self.record) {
            JsonView::Object(fields) => fields,
            _ => Seq::empty(),
        }
    }
}

impl PluginIds {
    /// Takes the record over from its document. A document that is no
    /// object is malformed.
    pub fn from_json(json: serde_json::Value) -> (ids: Result<PluginIds, BridgeError>)
        ensures
            match ids {
                Ok(ids) => document(json) == JsonView::Object(ids@),
                Err(error) => error == BridgeError::MalformedInput && !(document(json) is Object),
            },
    {
        let is_object = entries(&json).is_some();
        if is_object {
            Ok(PluginIds { record: json })
        } else {
            Err(BridgeError::MalformedInput)
        }
    }

    /// The first document that the record holds under a name.
    pub fn get(&self, name: &str) -> (found: Option<&serde_json::Value>)
        ensures
            match found {
                Some(json) => lookup(self@, name@) == Some(document(*json)),
                None => lookup(self@, name@) is None,
            },
    {
        match entries(&self.record) {
            Some(fields) => field(&fields, name),
            None => None,
        }
    }
}

} // verus!

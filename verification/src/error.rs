//! Failures of the bridge between a plugin and its host.

use vstd::prelude::*;

verus! {

/// Why an inbound value could not be handed to the plugin.
///
/// None of these can be recovered from inside the bridge: the operation in
/// flight is abandoned and no default value takes the place of the missing one.
#[derive(Debug, Clone, Copy, PartialEq, Eq, Structural)]
pub enum BridgeError {
    /// The inbound line is not a document of the expected shape.
    MalformedInput,
    /// The inbound channel had no further line when one was expected.
    ChannelClosed,
    /// A string names no input mode or event type.
    UnrecognizedName,
}

} // verus!

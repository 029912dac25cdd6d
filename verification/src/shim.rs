//! The bridge to the host: what each call sends, signals and awaits.
//!
//! The host correlates a payload with its trigger by order alone, and a
//! reply with its call by order alone. A call is therefore worked out here
//! as a whole, payload and trigger and whether a reply is awaited, and is
//! performed step by step by the caller, who owns the channel.

use crate::data::event::{event_types_json, EventType};
use crate::data::plugin::PluginIds;
use crate::error::BridgeError;
use crate::json::{document, from_str, json_parse, json_text, parse, print, JsonView};
use vstd::prelude::*;
use vstd::string::*;

verus! {

/// A function of the host, with the argument that is handed to it directly.
#[derive(Debug, Clone, Copy, PartialEq, Eq, Structural)]
pub enum Trigger {
    Subscribe,
    Unsubscribe,
    SetMaxHeight(i32),
    /// The flag is 1 or 0.
    SetSelectable(i32),
    /// The flag is 1 or 0.
    SetInvisibleBorders(i32),
    GetPluginIds,
    OpenFile,
}

/// One call into the host.
#[derive(Debug, PartialEq, Eq)]
pub struct HostCall {
    /// The line that is written to the outbound channel before the trigger.
    pub payload: Option<String>,
    pub trigger: Trigger,
    /// Whether one line is read from the inbound channel after the trigger.
    pub reads_reply: bool,
}

/// A `HostCall` as a mathematical value.
pub struct HostCallView {
    pub payload: Option<Seq<char>>,
    pub trigger: Trigger,
    pub reads_reply: bool,
}

impl View for HostCall {
    type V = HostCallView;

    open spec fn view(&self) -> HostCallView {
        HostCallView {
            payload: match self.payload {
                Some(line) => Some(line@),
                None => None,
            },
            trigger: self.trigger,
            reads_reply: self.reads_reply,
        }
    }
}

/// One thing to do on the channel or at the host.
#[derive(Debug, PartialEq, Eq)]
pub enum Step {
    /// Write this line to the outbound channel.
    Send(String),
    /// Invoke this function of the host.
    Signal(Trigger),
    /// Read one line from the inbound channel, blocking until it is there.
    Receive,
}

/// A `Step` as a mathematical value.
pub enum StepView {
    Send(Seq<char>),
    Signal(Trigger),
    Receive,
}

impl View for Step {
    type V = StepView;

    open spec fn view(&self) -> StepView {
        match self {
            Step::Send(line) => StepView::Send(line@),
            Step::Signal(trigger) => StepView::Signal(*trigger),
            Step::Receive => StepView::Receive,
        }
    }
}

/// Steps as mathematical values, one for one.
pub open spec fn steps_view(steps: Seq<Step>) -> Seq<StepView> {
    Seq::new(steps.len(), |i: int| steps[i]@)
}

/// The line of a document: its text and a newline.
pub open spec fn json_line(document: JsonView) -> Seq<char> {
    json_text(document).push('\n')
}

/// The document that a line holds, as it was read from the inbound
/// channel. A read that gave nothing at all means that the channel is
/// closed; a line that is no document is malformed.
pub open spec fn line_json(line: Seq<char>) -> Result<JsonView, BridgeError> {
    if line.len() == 0 {
        Err(BridgeError::ChannelClosed)
    } else {
        match json_parse(line) {
            Some(document) => Ok(document),
            None => Err(BridgeError::MalformedInput),
        }
    }
}

/// The steps of a call in their order: the payload if there is one, then
/// the trigger, then the reply if one is awaited.
pub open spec fn call_steps(call: HostCallView) -> Seq<StepView> {
    let send = match call.payload {
        Some(line) => seq![StepView::Send(line)],
        None => Seq::empty(),
    };
    let receive = if call.reads_reply {
        seq![StepView::Receive]
    } else {
        Seq::empty()
    };
    send + seq![StepView::Signal(call.trigger)] + receive
}

/// The flag that stands for a truth value at the host.
pub open spec fn flag(on: bool) -> i32 {
    if on {
        1i32
    } else {
        0i32
    }
}

/// In every call the trigger is signalled exactly once. Whatever is sent
/// comes before it, and whatever is received comes after it.
pub proof fn lemma_steps_order(call: HostCallView)
    ensures
        ({
            let steps = call_steps(call);
            let at: int = if call.payload is Some {
                1
            } else {
                0
            };
            &&& at < steps.len()
            &&& steps[at] == StepView::Signal(call.trigger)
            &&& forall|i: int| 0 <= i < at ==> #[trigger] steps[i] is Send
            &&& forall|i: int| at < i < steps.len() ==> #[trigger] steps[i] is Receive
        }),
{
}

/// The steps of calls that are made one after another.
pub open spec fn transcript(calls: Seq<HostCallView>) -> Seq<StepView>
    decreases calls.len(),
{
    if calls.len() == 0 {
        Seq::empty()
    } else {
        transcript(calls.drop_last()) + call_steps(calls.last())
    }
}

/// However many calls are made one after another, a line that is sent is
/// followed at once by a trigger, and a line that is received follows one at
/// once: no payload is parted from its trigger, and no reply from its call.
pub proof fn lemma_transcript_order(calls: Seq<HostCallView>)
    ensures
        ({
            let steps = transcript(calls);
            &&& forall|i: int|
                0 <= i < steps.len() && #[trigger] steps[i] is Send ==> {
                    &&& i + 1 < steps.len()
                    &&& steps[i + 1] is Signal
                }
            &&& forall|i: int|
                0 <= i < steps.len() && #[trigger] steps[i] is Receive ==> {
                    &&& i > 0
                    &&& steps[i - 1] is Signal
                }
        }),
    decreases calls.len(),
{
    if calls.len() > 0 {
        let front = transcript(calls.drop_last());
        let last = call_steps(calls.last());
        let steps = transcript(calls);
        lemma_transcript_order(calls.drop_last());
        lemma_steps_order(calls.last());
        assert forall|i: int| 0 <= i < steps.len() && #[trigger] steps[i] is Send implies {
            &&& i + 1 < steps.len()
            &&& steps[i + 1] is Signal
        } by {
            if i < front.len() {
                assert(front[i] is Send);
                assert(steps[i + 1] == front[i + 1]);
            } else {
                assert(last[i - front.len()] is Send);
                assert(steps[i + 1] == last[i + 1 - front.len()]);
            }
        }
        assert forall|i: int| 0 <= i < steps.len() && #[trigger] steps[i] is Receive implies {
            &&& i > 0
            &&& steps[i - 1] is Signal
        } by {
            if i < front.len() {
                assert(front[i] is Receive);
                assert(steps[i - 1] == front[i - 1]);
            } else {
                assert(last[i - front.len()] is Receive);
                assert(steps[i - 1] == last[i - 1 - front.len()]);
            }
        }
    }
}

impl HostCall {
    /// The steps of the call, in the order in which they are to be taken.
    pub fn steps(self) -> (steps: Vec<Step>)
        ensures
            steps_view(steps@) == call_steps(self@),
    {
        let mut steps: Vec<Step> = Vec::new();
        match self.payload {
            Some(line) => {
                steps.push(Step::Send(line));
            },
            None => {},
        }
        steps.push(Step::Signal(self.trigger));
        if self.reads_reply {
            steps.push(Step::Receive);
        }
        assert(steps_view(steps@) =~= call_steps(self@));
        steps
    }
}

/// Ends a text with a newline, which makes it a line of the channel.
pub fn end_line(text: String) -> (line: String)
    ensures
        line@ == text@.push('\n'),
{
    let mut line = text;
    proof {
        reveal_strlit("\n");
    }
    line.append("\n");
    assert(line@ =~= text@.push('\n'));
    line
}

/// The line under which a document goes out: its text, ended by a newline.
pub fn to_line(json: &serde_json::Value) -> (line: String)
    ensures
        line@ == json_line(document(*json)),
{
    end_line(print(json))
}

/// The document of a line that was read from the inbound channel.
pub fn from_line(line: &str) -> (json: Result<serde_json::Value, BridgeError>)
    ensures
        match json {
            Ok(json) => line_json(line@) == Ok::<JsonView, BridgeError>(document(json)),
            Err(error) => line_json(line@) == Err::<JsonView, BridgeError>(error),
        },
{
    if line.is_empty() {
        Err(BridgeError::ChannelClosed)
    } else {
        match parse(line) {
            Ok(json) => Ok(json),
            Err(_) => Err(BridgeError::MalformedInput),
        }
    }
}

/// Asks the host to deliver the events of the given kinds from now on.
pub fn subscribe(event_types: &[EventType]) -> (call: HostCall)
    ensures
        call@ == (HostCallView {
            payload: Some(json_line(event_types_json(event_types@))),
            trigger: Trigger::Subscribe,
            reads_reply: false,
        }),
{
    HostCall {
        payload: Some(to_line(&EventType::list_to_json(event_types))),
        trigger: Trigger::Subscribe,
        reads_reply: false,
    }
}

/// Asks the host to deliver the events of the given kinds no longer.
pub fn unsubscribe(event_types: &[EventType]) -> (call: HostCall)
    ensures
        call@ == (HostCallView {
            payload: Some(json_line(event_types_json(event_types@))),
            trigger: Trigger::Unsubscribe,
            reads_reply: false,
        }),
{
    HostCall {
        payload: Some(to_line(&EventType::list_to_json(event_types))),
        trigger: Trigger::Unsubscribe,
        reads_reply: false,
    }
}

/// Sets the greatest height that the plugin may take.
pub fn set_max_height(max_height: i32) -> (call: HostCall)
    ensures
        call@ == (HostCallView {
            payload: None,
            trigger: Trigger::SetMaxHeight(max_height),
            reads_reply: false,
        }),
{
    HostCall { payload: None, trigger: Trigger::SetMaxHeight(max_height), reads_reply: false }
}

/// Sets whether the plugin can be selected.
pub fn set_selectable(selectable: bool) -> (call: HostCall)
    ensures
        call@ == (HostCallView {
            payload: None,
            trigger: Trigger::SetSelectable(flag(selectable)),
            reads_reply: false,
        }),
{
    let on: i32 = if selectable {
        1
    } else {
        0
    };
    HostCall { payload: None, trigger: Trigger::SetSelectable(on), reads_reply: false }
}

/// Sets whether the borders of the plugin are invisible.
pub fn set_invisible_borders(invisible_borders: bool) -> (call: HostCall)
    ensures
        call@ == (HostCallView {
            payload: None,
            trigger: Trigger::SetInvisibleBorders(flag(invisible_borders)),
            reads_reply: false,
        }),
{
    let on: i32 = if invisible_borders {
        1
    } else {
        0
    };
    HostCall { payload: None, trigger: Trigger::SetInvisibleBorders(on), reads_reply: false }
}

/// Asks the host for the identity of the plugin. The reply is read with
/// `plugin_ids_from_line`.
pub fn get_plugin_ids() -> (call: HostCall)
    ensures
        call@ == (HostCallView {
            payload: None,
            trigger: Trigger::GetPluginIds,
            reads_reply: true,
        }),
{
    HostCall { payload: None, trigger: Trigger::GetPluginIds, reads_reply: true }
}

/// The identity that the reply to `get_plugin_ids` holds, or why it holds
/// none.
pub open spec fn line_plugin_ids(
    line: Seq<char>,
) -> Result<Seq<(Seq<char>, JsonView)>, BridgeError> {
    match line_json(line) {
        Ok(JsonView::Object(fields)) => Ok(fields),
        Ok(_) => Err(BridgeError::MalformedInput),
        Err(error) => Err(error),
    }
}

/// Reads the reply to `get_plugin_ids`.
pub fn plugin_ids_from_line(line: &str) -> (ids: Result<PluginIds, BridgeError>)
    ensures
        match ids {
            Ok(ids) => line_plugin_ids(line@) == Ok::<Seq<(Seq<char>, JsonView)>, BridgeError>(
                ids@,
            ),
            Err(error) => line_plugin_ids(line@) == Err::<
                Seq<(Seq<char>, JsonView)>,
                BridgeError,
            >(error),
        },
{
    match from_line(line) {
        Ok(json) => PluginIds::from_json(json),
        Err(error) => Err(error),
    }
}

/// Asks the host to open the file at a path.
pub fn open_file(path: &str) -> (call: HostCall)
    ensures
        call@ == (HostCallView {
            payload: Some(json_line(JsonView::Str(path@))),
            trigger: Trigger::OpenFile,
            reads_reply: false,
        }),
{
    HostCall {
        payload: Some(to_line(&from_str(path))),
        trigger: Trigger::OpenFile,
        reads_reply: false,
    }
}

} // verus!

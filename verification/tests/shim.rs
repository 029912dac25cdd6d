use zellij_tile::data::{Event, EventType, Key, ModeInfo, PluginIds};
use zellij_tile::error::BridgeError;
use zellij_tile::shim::{
    from_line, get_plugin_ids, open_file, plugin_ids_from_line, set_invisible_borders,
    set_max_height, set_selectable, subscribe, to_line, unsubscribe, HostCall, Step, Trigger,
};

/// A host that keeps the subscriptions of one plugin and answers its calls.
struct Host {
    outbound: Vec<String>,
    inbound: Vec<String>,
    subscribed: Vec<EventType>,
    max_height: Option<i32>,
    selectable: Option<i32>,
    invisible_borders: Option<i32>,
    opened: Vec<String>,
    ids_reply: String,
    log: Vec<String>,
}

impl Host {
    fn new() -> Host {
        Host {
            outbound: vec![],
            inbound: vec![],
            subscribed: vec![],
            max_height: None,
            selectable: None,
            invisible_borders: None,
            opened: vec![],
            ids_reply: "{\"plugin_id\":3,\"zellij_pid\":4711}\n".to_string(),
            log: vec![],
        }
    }

    fn payload(&mut self) -> serde_json::Value {
        from_line(&self.outbound.remove(0)).unwrap()
    }

    fn signal(&mut self, trigger: Trigger) {
        match trigger {
            Trigger::Subscribe => {
                for kind in EventType::list_from_json(&self.payload()).unwrap() {
                    if !self.subscribed.contains(&kind) {
                        self.subscribed.push(kind);
                    }
                }
            }
            Trigger::Unsubscribe => {
                let gone = EventType::list_from_json(&self.payload()).unwrap();
                self.subscribed.retain(|kind| !gone.contains(kind));
            }
            Trigger::SetMaxHeight(height) => self.max_height = Some(height),
            Trigger::SetSelectable(flag) => self.selectable = Some(flag),
            Trigger::SetInvisibleBorders(flag) => self.invisible_borders = Some(flag),
            Trigger::GetPluginIds => self.inbound.push(self.ids_reply.clone()),
            Trigger::OpenFile => {
                let path = self.payload();
                self.opened.push(path.as_str().unwrap().to_string());
            }
        }
    }

    /// Takes the steps of a call in their order and gives back what was read.
    fn perform(&mut self, call: HostCall) -> Option<String> {
        let mut reply = None;
        for step in call.steps() {
            match step {
                Step::Send(line) => {
                    self.log.push("send".to_string());
                    self.outbound.push(line);
                }
                Step::Signal(trigger) => {
                    self.log.push("signal".to_string());
                    self.signal(trigger);
                }
                Step::Receive => {
                    self.log.push("receive".to_string());
                    reply = Some(if self.inbound.is_empty() {
                        String::new()
                    } else {
                        self.inbound.remove(0)
                    });
                }
            }
        }
        reply
    }

    /// Pushes an event to the plugin if it subscribed to its kind.
    fn occur(&mut self, event: &Event) {
        if self.subscribed.contains(&event.event_type()) {
            self.inbound.push(to_line(&event.to_json()));
        }
    }
}

#[test]
fn subscribe_sends_the_names_and_then_signals() {
    let call = subscribe(&[EventType::KeyPress, EventType::TabUpdate]);
    assert_eq!(
        call,
        HostCall {
            payload: Some("[\"KeyPress\",\"TabUpdate\"]\n".to_string()),
            trigger: Trigger::Subscribe,
            reads_reply: false,
        }
    );
    assert_eq!(
        call.steps(),
        vec![
            Step::Send("[\"KeyPress\",\"TabUpdate\"]\n".to_string()),
            Step::Signal(Trigger::Subscribe),
        ]
    );
}

#[test]
fn subscribe_to_nothing_sends_an_empty_list() {
    assert_eq!(
        subscribe(&[]).steps(),
        vec![Step::Send("[]\n".to_string()), Step::Signal(Trigger::Subscribe)]
    );
}

#[test]
fn unsubscribe_sends_the_names_and_then_signals() {
    assert_eq!(
        unsubscribe(&[EventType::ModeUpdate]).steps(),
        vec![
            Step::Send("[\"ModeUpdate\"]\n".to_string()),
            Step::Signal(Trigger::Unsubscribe),
        ]
    );
}

#[test]
fn settings_are_handed_over_directly() {
    assert_eq!(set_max_height(7).steps(), vec![Step::Signal(Trigger::SetMaxHeight(7))]);
    assert_eq!(set_max_height(-1).steps(), vec![Step::Signal(Trigger::SetMaxHeight(-1))]);
    assert_eq!(
        set_max_height(i32::MAX).steps(),
        vec![Step::Signal(Trigger::SetMaxHeight(i32::MAX))]
    );
    assert_eq!(set_selectable(true).steps(), vec![Step::Signal(Trigger::SetSelectable(1))]);
    assert_eq!(set_selectable(false).steps(), vec![Step::Signal(Trigger::SetSelectable(0))]);
    assert_eq!(
        set_invisible_borders(true).steps(),
        vec![Step::Signal(Trigger::SetInvisibleBorders(1))]
    );
    assert_eq!(
        set_invisible_borders(false).steps(),
        vec![Step::Signal(Trigger::SetInvisibleBorders(0))]
    );
    assert_eq!(set_selectable(true).payload, None);
    assert!(!set_selectable(true).reads_reply);
}

#[test]
fn open_file_sends_the_path_as_a_string() {
    assert_eq!(
        open_file("/tmp/notes.txt").steps(),
        vec![
            Step::Send("\"/tmp/notes.txt\"\n".to_string()),
            Step::Signal(Trigger::OpenFile),
        ]
    );
    assert_eq!(
        open_file("a \"b\"\\c").steps(),
        vec![Step::Send("\"a \\\"b\\\"\\\\c\"\n".to_string()), Step::Signal(Trigger::OpenFile)]
    );
}

#[test]
fn get_plugin_ids_signals_and_then_reads() {
    assert_eq!(
        get_plugin_ids().steps(),
        vec![Step::Signal(Trigger::GetPluginIds), Step::Receive]
    );
}

#[test]
fn calls_reach_the_host_in_order() {
    let mut host = Host::new();
    host.perform(subscribe(&[EventType::KeyPress]));
    host.perform(set_max_height(2));
    host.perform(set_selectable(false));
    host.perform(set_invisible_borders(true));
    host.perform(open_file("src/main.rs"));
    let reply = host.perform(get_plugin_ids());
    assert_eq!(
        host.log,
        vec!["send", "signal", "signal", "signal", "signal", "send", "signal", "signal", "receive"]
    );
    assert!(host.outbound.is_empty());
    assert_eq!(host.subscribed, vec![EventType::KeyPress]);
    assert_eq!(host.max_height, Some(2));
    assert_eq!(host.selectable, Some(0));
    assert_eq!(host.invisible_borders, Some(1));
    assert_eq!(host.opened, vec!["src/main.rs".to_string()]);
    let ids = plugin_ids_from_line(&reply.unwrap()).unwrap();
    assert_eq!(ids.get("plugin_id").and_then(|id| id.as_u64()), Some(3));
    assert_eq!(ids.get("zellij_pid").and_then(|id| id.as_u64()), Some(4711));
    assert_eq!(ids.get("other"), None);
}

#[test]
fn subscribed_plugin_receives_its_events() {
    let mut host = Host::new();
    host.perform(subscribe(&[EventType::KeyPress]));
    host.occur(&Event::KeyPress(Key::Char('x')));
    host.occur(&Event::TabUpdate(vec![]));
    host.occur(&Event::KeyPress(Key::Esc));
    assert_eq!(host.inbound.len(), 2);
    let first = Event::from_json(&from_line(&host.inbound[0]).unwrap());
    let second = Event::from_json(&from_line(&host.inbound[1]).unwrap());
    assert_eq!(first, Ok(Event::KeyPress(Key::Char('x'))));
    assert_eq!(second, Ok(Event::KeyPress(Key::Esc)));
}

#[test]
fn subscribe_then_unsubscribe_ends_delivery() {
    let mut host = Host::new();
    host.perform(subscribe(&[EventType::KeyPress]));
    host.perform(unsubscribe(&[EventType::KeyPress]));
    host.occur(&Event::KeyPress(Key::Char('x')));
    host.occur(&Event::KeyPress(Key::Esc));
    assert!(host.subscribed.is_empty());
    assert!(host.inbound.is_empty());
}

#[test]
fn repeated_subscribe_is_one_subscription() {
    let mut host = Host::new();
    host.perform(subscribe(&[EventType::KeyPress]));
    host.perform(subscribe(&[EventType::KeyPress, EventType::KeyPress]));
    host.occur(&Event::KeyPress(Key::Esc));
    assert_eq!(host.inbound.len(), 1);
    host.perform(unsubscribe(&[EventType::KeyPress]));
    host.occur(&Event::KeyPress(Key::Esc));
    assert_eq!(host.inbound.len(), 1);
}

#[test]
fn unsubscribe_leaves_the_other_kinds() {
    let mut host = Host::new();
    host.perform(subscribe(&[EventType::KeyPress, EventType::ModeUpdate]));
    host.perform(unsubscribe(&[EventType::KeyPress]));
    host.occur(&Event::KeyPress(Key::Esc));
    host.occur(&Event::ModeUpdate(ModeInfo::default()));
    assert_eq!(host.inbound.len(), 1);
    let read = Event::from_json(&from_line(&host.inbound[0]).unwrap()).unwrap();
    assert_eq!(read.event_type(), EventType::ModeUpdate);
}

#[test]
fn unexpected_event_is_read_like_any_other() {
    let line = to_line(&Event::TabUpdate(vec![]).to_json());
    assert_eq!(Event::from_json(&from_line(&line).unwrap()), Ok(Event::TabUpdate(vec![])));
}

#[test]
fn plugin_ids_are_read_from_a_record() {
    let ids = plugin_ids_from_line("{\"plugin_id\":1,\"zellij_pid\":2}\n").unwrap();
    assert_eq!(ids.get("plugin_id").and_then(|id| id.as_u64()), Some(1));
    assert_eq!(ids.get("zellij_pid").and_then(|id| id.as_u64()), Some(2));
    assert_eq!(ids.get("plugin"), None);
    let empty = plugin_ids_from_line("{}").unwrap();
    assert_eq!(empty.get("plugin_id"), None);
}

#[test]
fn truncated_plugin_ids_are_malformed() {
    assert_eq!(plugin_ids_from_line("{\"plugin_id\":1,\"zelli"), Err(BridgeError::MalformedInput));
    assert_eq!(plugin_ids_from_line("{\"plugin_id\":"), Err(BridgeError::MalformedInput));
    assert_eq!(plugin_ids_from_line("\n"), Err(BridgeError::MalformedInput));
    assert_eq!(plugin_ids_from_line("not json\n"), Err(BridgeError::MalformedInput));
    assert_eq!(plugin_ids_from_line("{} {}\n"), Err(BridgeError::MalformedInput));
}

#[test]
fn plugin_ids_that_are_no_record_are_malformed() {
    assert_eq!(plugin_ids_from_line("[1,2]\n"), Err(BridgeError::MalformedInput));
    assert_eq!(plugin_ids_from_line("null\n"), Err(BridgeError::MalformedInput));
    assert_eq!(plugin_ids_from_line("3\n"), Err(BridgeError::MalformedInput));
    let array = from_line("[1,2]\n").unwrap();
    assert_eq!(PluginIds::from_json(array), Err(BridgeError::MalformedInput));
}

#[test]
fn closed_channel_is_told_from_a_malformed_line() {
    assert_eq!(plugin_ids_from_line(""), Err(BridgeError::ChannelClosed));
    assert_eq!(from_line(""), Err(BridgeError::ChannelClosed));
    assert_eq!(from_line(" "), Err(BridgeError::MalformedInput));
    assert_eq!(from_line("\n"), Err(BridgeError::MalformedInput));
    let mut host = Host::new();
    host.ids_reply = String::new();
    let reply = host.perform(get_plugin_ids()).unwrap();
    assert_eq!(plugin_ids_from_line(&reply), Err(BridgeError::ChannelClosed));
}

#[test]
fn line_is_the_text_and_one_newline() {
    let json = from_line("  {\"a\" : [1, 2.5, -3, null, true, \"x\\ny\"]}  \n").unwrap();
    assert_eq!(to_line(&json), "{\"a\":[1,2.5,-3,null,true,\"x\\ny\"]}\n");
    assert_eq!(from_line(&to_line(&json)), Ok(json));
}

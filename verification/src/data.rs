//! The values that plugin and host exchange.

pub mod event;
pub mod key;
pub mod mode;
pub mod plugin;
pub mod tab;

pub use self::event::{Event, EventType};
pub use self::key::Key;
pub use self::mode::{InputMode, ModeInfo};
pub use self::plugin::PluginIds;
pub use self::tab::TabInfo;

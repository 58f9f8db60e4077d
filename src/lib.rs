//! Hotkey-driven window placement: rectangle geometry, the binding model,
//! the hotkey registry and the decisions of the dispatch loop.

pub mod config;
pub mod dispatch;
pub mod keybind;
pub mod window;

pub use config::{Action, Binding, Config, ConfigDirectives, Direction, Metric, Ratio};
pub use dispatch::{plan_activation, Reference};
pub use keybind::{
    modifier_flags, modifier_to_flag_code, Dispatch, HotkeyRequest, Key, KeybindMessage, Keybinds,
    Modifier,
};
pub use window::{nudge, resolve_metric, Rect};

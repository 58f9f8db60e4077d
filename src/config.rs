//! The binding model: what a configured hotkey does when it fires.
use vstd::prelude::*;

use crate::keybind::{Key, Modifier};

verus! {

/// An edge of a rectangle, and the way a window moves towards it.
#[derive(Debug, Clone, Copy, PartialEq, Eq, Structural)]
pub enum Direction {
    Up,
    Left,
    Right,
    Down,
}

impl Direction {
    /// Up and Down act on the vertical axis, Left and Right on the horizontal one.
    pub open spec fn is_vertical(self) -> bool {
        self is Up || self is Down
    }
}

/// The exact rational number `numer / denom`; meaningful when `denom > 0`.
///
/// Fractions and percentages of the configuration are held this way, so
/// that every result computed from them is exact.
#[derive(Debug, Clone, Copy, PartialEq, Eq, Structural)]
pub struct Ratio {
    pub numer: i32,
    pub denom: i32,
}

impl Ratio {
    /// A well-formed ratio: its denominator is positive.
    pub open spec fn is_valid(self) -> bool {
        self.denom > 0
    }

    /// The ratio is a valid number greater than zero.
    pub open spec fn is_positive(self) -> bool {
        self.numer > 0 && self.denom > 0
    }
}

/// How far a nudge moves a window.
#[derive(Debug, Clone, Copy, PartialEq, Eq, Structural)]
pub enum Metric {
    /// This share of the window's own extent along the axis of the move
    /// (`1/1` is the whole width or height).
    Percent(Ratio),
    /// This many pixels.
    Absolute(i32),
}

/// What a binding does to the focused window.
#[derive(Debug, Clone, Copy, PartialEq, Eq, Structural)]
pub enum Action {
    /// Occupy `1 / fraction` of the monitor's work area, against the edge
    /// named by `direction`.
    Push { direction: Direction, fraction: Ratio },
    /// Move the window by `distance` towards `direction`, keeping its size.
    Nudge { direction: Direction, distance: Metric },
}

} // verus!

verus! {

/// One configured hotkey: a key, the modifiers held with it, and what it
/// does. The order of `modifiers` and repetitions in it do not matter.
#[derive(Debug)]
pub struct Binding {
    pub key: Key,
    pub modifiers: Vec<Modifier>,
    pub action: Action,
}

/// Options of the configuration that are not bindings.
#[derive(Debug, Clone, Copy, PartialEq, Eq, Structural)]
pub struct ConfigDirectives {
    /// Reload the configuration when its file changes.
    pub live_reload_configuration: bool,
}

impl Default for ConfigDirectives {
    /// Live reload is off.
    fn default() -> (r: ConfigDirectives)
        ensures
            !r.live_reload_configuration,
    {
        ConfigDirectives { live_reload_configuration: false }
    }
}

/// A whole configuration: directives and the bindings, in order.
#[derive(Debug)]
pub struct Config {
    pub directives: ConfigDirectives,
    pub bindings: Vec<Binding>,
}

impl Default for Config {
    /// The default configuration: Super+Shift+Left pushes the window into
    /// the left half of the screen, and Super+Shift+Alt+Left nudges it 100
    /// pixels to the left.
    fn default() -> (r: Config)
        ensures
            !r.directives.live_reload_configuration,
            r.bindings@.len() == 2,
            r.bindings@[0].key == Key::Left,
            r.bindings@[0].modifiers@ == seq![Modifier::Super, Modifier::Shift],
            r.bindings@[0].action == (Action::Push {
                direction: Direction::Left,
                fraction: Ratio { numer: 2, denom: 1 },
            }),
            r.bindings@[1].key == Key::Left,
            r.bindings@[1].modifiers@ == seq![Modifier::Super, Modifier::Shift, Modifier::Alt],
            r.bindings@[1].action == (Action::Nudge {
                direction: Direction::Left,
                distance: Metric::Absolute(100),
            }),
    {
        let push = Binding {
            key: Key::Left,
            modifiers: vec![Modifier::Super, Modifier::Shift],
            action: Action::Push { direction: Direction::Left, fraction: Ratio { numer: 2, denom: 1 } },
        };
        let nudge = Binding {
            key: Key::Left,
            modifiers: vec![Modifier::Super, Modifier::Shift, Modifier::Alt],
            action: Action::Nudge { direction: Direction::Left, distance: Metric::Absolute(100) },
        };
        Config { directives: ConfigDirectives::default(), bindings: vec![push, nudge] }
    }
}

} // verus!

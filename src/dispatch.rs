//! What an activation does to the focused window.
use vstd::prelude::*;

use crate::config::{Action, Metric};
use crate::window::{
    can_nudge, can_slice, metric_distance, metric_is_valid, nudge, nudge_fits, nudged,
    resolve_metric, Rect,
};

verus! {

/// The rectangle that an action is computed against.
#[derive(Debug, Clone, Copy, PartialEq, Eq, Structural)]
pub enum Reference {
    /// The work area of the monitor that holds the focused window.
    WorkArea,
    /// The focused window's own rectangle.
    WindowRect,
}

/// Push is computed against the monitor's work area, Nudge against the
/// window's own rectangle.
pub open spec fn reference_of(action: Action) -> Reference {
    match action {
        Action::Push { .. } => Reference::WorkArea,
        Action::Nudge { .. } => Reference::WindowRect,
    }
}

/// The action can be carried out against `reference`: its numbers are valid
/// and every edge of the result is representable.
pub open spec fn action_feasible(action: Action, reference: Rect) -> bool {
    match action {
        Action::Push { direction, fraction } => reference.is_measurable()
            && fraction.is_positive() && reference.slice_fits(direction, fraction),
        Action::Nudge { direction, distance } => reference.is_measurable() && metric_is_valid(
            distance,
        ) && nudge_fits(reference, direction, metric_distance(distance, direction, reference)),
    }
}

/// The new rectangle of the window: a push takes its slice of the work
/// area, a nudge moves the window by the resolved distance.
pub open spec fn action_target(action: Action, reference: Rect) -> Rect {
    match action {
        Action::Push { direction, fraction } => reference.sliced(direction, fraction),
        Action::Nudge { direction, distance } => nudged(
            reference,
            direction,
            metric_distance(distance, direction, reference),
        ),
    }
}

impl Action {
    /// Which rectangle this action is computed against.
    pub fn reference(&self) -> (r: Reference)
        ensures
            r == reference_of(*self),
    {
        match self {
            Action::Push { .. } => Reference::WorkArea,
            Action::Nudge { .. } => Reference::WindowRect,
        }
    }
}

/// The rectangle that an activation of `action` gives the focused window,
/// where `reference` is the rectangle named by `action.reference()`, or
/// `None` when no window is focused. There is no new rectangle when no
/// window is focused, nor when the action cannot be carried out against
/// `reference`; the window is then left as it is.
pub fn plan_activation(action: &Action, reference: Option<Rect>) -> (r: Option<Rect>)
    ensures
        r == (match reference {
            None => None,
            Some(rect) => if action_feasible(*action, rect) {
                Some(action_target(*action, rect))
            } else {
                None
            },
        }),
{
    let rect = match reference {
        None => return None,
        Some(rect) => rect,
    };
    match *action {
        Action::Push { direction, fraction } => {
            if can_slice(&rect, direction, fraction) {
                Some(rect.slice_rect(direction, fraction))
            } else {
                None
            }
        },
        Action::Nudge { direction, distance } => {
            let valid = match distance {
                Metric::Percent(fraction) => fraction.denom > 0,
                Metric::Absolute(_) => true,
            };
            if !valid || !rect.size_fits() {
                return None;
            }
            let pixels = resolve_metric(distance, direction, &rect);
            if can_nudge(&rect, direction, pixels) {
                Some(nudge(rect, direction, pixels))
            } else {
                None
            }
        },
    }
}

} // verus!

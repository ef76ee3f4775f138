//! The input translator: raw pointer and keyboard events, local to the
//! viewport, become optional scroll deltas.
//!
//! Wheel events scroll only while the pointer is inside the viewport;
//! page keys scroll by one viewport height regardless. Events that match
//! nothing yield no delta and are left for other handlers. A "natural
//! scrolling" option flips the sign of whatever delta results.

use vstd::prelude::*;

use crate::geometry::MAX_DIM;
use crate::scrollie::MAX_DELTA;

verus! {

/// Scroll units per line of a line-based wheel tick.
pub const WHEEL_LINE_FACTOR: i64 = 80;

/// Bound on the magnitude a single wheel event may report.
pub const MAX_WHEEL: i64 = 0x40_0000_0000;

/// A raw input event, reduced to what the viewport cares about.
#[derive(Clone, Copy, Debug, PartialEq, Eq, Structural)]
pub enum InputEvent {
    /// A line-based wheel tick of the given vertical magnitude.
    WheelLines { y: i64 },
    /// A pixel-based wheel tick of the given vertical magnitude.
    WheelPixels { y: i64 },
    /// The page-down key was pressed.
    PageDown,
    /// The page-up key was pressed.
    PageUp,
    /// Any event the viewport does not act on.
    Other,
}

impl InputEvent {
    /// A wheel event's magnitude stays within [`MAX_WHEEL`].
    pub open spec fn wf(self) -> bool {
        match self {
            InputEvent::WheelLines { y } => -MAX_WHEEL <= y <= MAX_WHEEL,
            InputEvent::WheelPixels { y } => -MAX_WHEEL <= y <= MAX_WHEEL,
            _ => true,
        }
    }
}

/// The delta an event maps to, before the natural-scrolling flip:
/// `-y × 80` for wheel lines, `-y` for wheel pixels (both only with the
/// pointer inside the viewport), one viewport height for the page keys.
pub open spec fn base_delta_spec(
    event: InputEvent,
    cursor_inside: bool,
    viewport_height: int,
) -> Option<int> {
    match event {
        InputEvent::WheelLines { y } => if cursor_inside {
            Some(-y * WHEEL_LINE_FACTOR)
        } else {
            None
        },
        InputEvent::WheelPixels { y } => if cursor_inside {
            Some(-(y as int))
        } else {
            None
        },
        InputEvent::PageDown => Some(viewport_height),
        InputEvent::PageUp => Some(-viewport_height),
        InputEvent::Other => None,
    }
}

/// The delta an event maps to, with the natural-scrolling flip applied.
pub open spec fn translate_spec(
    event: InputEvent,
    cursor_inside: bool,
    viewport_height: int,
    natural_scrolling: bool,
) -> Option<int> {
    match base_delta_spec(event, cursor_inside, viewport_height) {
        Some(d) => Some(
            if natural_scrolling {
                -d
            } else {
                d
            },
        ),
        None => None,
    }
}

/// Map one raw input event to a scroll delta, or to nothing if the event
/// is irrelevant here, per [`translate_spec`]. A returned delta is always
/// within [`MAX_DELTA`], so it can be handed to the animator directly.
pub fn translate_input(
    event: InputEvent,
    cursor_inside: bool,
    viewport_height: i64,
    natural_scrolling: bool,
) -> (r: Option<i64>)
    requires
        event.wf(),
        0 <= viewport_height <= MAX_DIM,
    ensures
        match r {
            Some(d) => {
                &&& Some(d as int) == translate_spec(
                    event,
                    cursor_inside,
                    viewport_height as int,
                    natural_scrolling,
                )
                &&& -MAX_DELTA <= d <= MAX_DELTA
            },
            None => translate_spec(
                event,
                cursor_inside,
                viewport_height as int,
                natural_scrolling,
            ) is None,
        },
{
    let base: Option<i64> = match event {
        InputEvent::WheelLines { y } => if cursor_inside {
            Some(-y * WHEEL_LINE_FACTOR)
        } else {
            None
        },
        InputEvent::WheelPixels { y } => if cursor_inside {
            Some(-y)
        } else {
            None
        },
        InputEvent::PageDown => Some(viewport_height),
        InputEvent::PageUp => Some(-viewport_height),
        InputEvent::Other => None,
    };
    match base {
        Some(d) => Some(
            if natural_scrolling {
                -d
            } else {
                d
            },
        ),
        None => None,
    }
}

} // verus!

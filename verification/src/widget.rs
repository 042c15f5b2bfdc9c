//! Decisions of the toolkit widget that shows the compositor: its size
//! request, the socket name it reports, and how toolkit pointer input is
//! turned into Wayland input.

use crate::state::Location;
use vstd::prelude::*;

verus! {

/// Linux input code of the left mouse button.
pub const BTN_LEFT: u32 = 0x110;

/// Linux input code of the right mouse button.
pub const BTN_RIGHT: u32 = 0x111;

/// Linux input code of the middle mouse button.
pub const BTN_MIDDLE: u32 = 0x112;

/// The Wayland (Linux input) code of a toolkit mouse button; toolkit
/// buttons are numbered 1 (primary), 2 (middle) and 3 (secondary), and any
/// other button is taken as the primary one.
pub open spec fn button_code(toolkit_button: u32) -> u32 {
    if toolkit_button == 2 {
        BTN_MIDDLE
    } else if toolkit_button == 3 {
        BTN_RIGHT
    } else {
        BTN_LEFT
    }
}

/// Translates a toolkit mouse button into the code sent to Wayland clients.
pub fn wayland_button(toolkit_button: u32) -> (code: u32)
    ensures
        code == button_code(toolkit_button),
        toolkit_button == 1 ==> code == 0x110,
        toolkit_button == 2 ==> code == 0x112,
        toolkit_button == 3 ==> code == 0x111,
        toolkit_button != 2 && toolkit_button != 3 ==> code == 0x110,
        code == BTN_LEFT || code == BTN_RIGHT || code == BTN_MIDDLE,
{
    match toolkit_button {
        1 => BTN_LEFT,
        2 => BTN_MIDDLE,
        3 => BTN_RIGHT,
        _ => BTN_LEFT,
    }
}

/// The three toolkit buttons reach clients as three different codes, and
/// every other button as the primary one.
pub proof fn lemma_buttons_stay_apart(toolkit_button: u32)
    ensures
        button_code(1) != button_code(2),
        button_code(1) != button_code(3),
        button_code(2) != button_code(3),
        toolkit_button != 2 && toolkit_button != 3 ==> button_code(toolkit_button) == button_code(1),
{
}

/// The surface under the pointer and the location of its window, or no
/// surface and the origin when the pointer is over no window.
pub fn pointer_focus<S>(under: Option<(S, Location)>) -> (focus: (Option<S>, Location))
    ensures
        match under {
            Some((surface, location)) => focus.0 == Some(surface) && focus.1 == location,
            None => focus.0 is None && focus.1 == (Location { x: 0, y: 0 }),
        },
{
    match under {
        Some((surface, location)) => (Some(surface), location),
        None => (None, Location::origin()),
    }
}

/// The size of a window's geometry.
#[derive(Clone, Copy, PartialEq, Eq, Structural, Debug)]
pub struct Size {
    pub w: i32,
    pub h: i32,
}

/// The answer to the toolkit's size request: minimum and natural size, and
/// their baselines (-1 for none).
#[derive(Clone, Copy, PartialEq, Eq, Structural, Debug)]
pub struct Measurement {
    pub minimum: i32,
    pub natural: i32,
    pub minimum_baseline: i32,
    pub natural_baseline: i32,
}

/// The widget asks for the size of the first mapped window along the
/// measured orientation (width when `horizontal`), or for nothing when no
/// window is mapped; it has no baseline.
pub fn measure_widget(horizontal: bool, first_window: Option<Size>) -> (measurement: Measurement)
    ensures
        measurement.minimum_baseline == -1,
        measurement.natural_baseline == -1,
        match first_window {
            Some(size) => {
                let extent = if horizontal {
                    size.w
                } else {
                    size.h
                };
                measurement.minimum == extent && measurement.natural == extent
            },
            None => measurement.minimum == 0 && measurement.natural == 0,
        },
{
    match first_window {
        Some(size) => {
            let extent = if horizontal {
                size.w
            } else {
                size.h
            };
            Measurement { minimum: extent, natural: extent, minimum_baseline: -1, natural_baseline: -1 }
        },
        None => Measurement { minimum: 0, natural: 0, minimum_baseline: -1, natural_baseline: -1 },
    }
}

/// The socket name the widget reports: that of its compositor state, or
/// the empty name before the state exists.
pub fn reported_socket_name(state_socket: Option<String>) -> (name: String)
    ensures
        match state_socket {
            Some(socket) => name@ == socket@,
            None => name@.len() == 0,
        },
{
    match state_socket {
        Some(socket) => socket,
        None => String::new(),
    }
}

} // verus!

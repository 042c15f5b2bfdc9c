//! Decisions of the compositor state: how it is set up, how failures while
//! setting it up are reported, where new windows go and which mapped
//! windows are listed where.

use crate::error::AdlisacError;
use vstd::prelude::*;
use vstd::string::*;

verus! {

/// A position in the compositor's logical coordinate space.
#[derive(Clone, Copy, PartialEq, Eq, Structural, Debug)]
pub struct Location {
    pub x: i32,
    pub y: i32,
}

impl Location {
    /// The origin, which is also the default location.
    pub fn origin() -> (location: Location)
        ensures
            location.x == 0,
            location.y == 0,
    {
        Location { x: 0, y: 0 }
    }
}

/// The fixed parameters with which the compositor state is set up.
pub struct StateConfig {
    /// Name of the one input seat.
    pub seat_name: String,
    /// Delay before a held key repeats, in milliseconds.
    pub keyboard_repeat_delay: i32,
    /// Key repeats per second.
    pub keyboard_repeat_rate: i32,
    /// Base name of the listening socket.
    pub socket_basename: String,
    /// First number tried for the listening socket.
    pub socket_range_start: usize,
    /// One past the last number tried for the listening socket.
    pub socket_range_end: usize,
}

/// The parameters the compositor state is set up with.
pub fn state_config() -> (config: StateConfig)
    ensures
        config.seat_name@ == "seat-0"@,
        config.keyboard_repeat_delay == 200,
        config.keyboard_repeat_rate == 25,
        config.socket_basename@ == "wayland-"@,
        config.socket_range_start == 0,
        config.socket_range_end == 100,
{
    StateConfig {
        seat_name: String::from_str("seat-0"),
        keyboard_repeat_delay: 200,
        keyboard_repeat_rate: 25,
        socket_basename: String::from_str("wayland-"),
        socket_range_start: 0,
        socket_range_end: 100,
    }
}

pub open spec fn keyboard_failure_prefix() -> Seq<char> {
    "Failed to add keyboard to seat: "@
}

pub open spec fn missing_socket_name_text() -> Seq<char> {
    "Failed to retrieve the Wayland socket name"@
}

/// The error reported when the keyboard could not be added to the seat,
/// given the text of the keyboard error.
pub fn keyboard_failure(detail: &str) -> (error: AdlisacError)
    ensures
        error matches AdlisacError::InternalSmithay(text) && text@ == keyboard_failure_prefix()
            + detail@,
{
    AdlisacError::InternalSmithay(String::from_str("Failed to add keyboard to seat: ").concat(detail))
}

/// The socket name the state keeps, given what the bound socket reports:
/// an error when it reports none.
pub fn socket_name_result(reported: Option<String>) -> (name: Result<String, AdlisacError>)
    ensures
        match reported {
            Some(text) => name matches Ok(kept) && kept@ == text@,
            None => name matches Err(AdlisacError::ProtocolInitError(text)) && text@
                == missing_socket_name_text(),
        },
{
    match reported {
        Some(text) => Ok(text),
        None => Err(
            AdlisacError::ProtocolInitError(
                String::from_str("Failed to retrieve the Wayland socket name"),
            ),
        ),
    }
}

/// How far setting up the state got: the keyboard could not be added (with
/// the keyboard error's text), or it was added and binding the listening
/// socket was attempted, with the socket's reported name on success.
pub enum SetupProgress {
    KeyboardFailed(String),
    SocketBound(Result<Option<String>, wayland_server::BindError>),
}

/// The outcome of setting up the state: the socket name to keep, or the
/// error of the first step that failed (keyboard, then binding the socket,
/// then reading its name).
pub fn setup_outcome(progress: SetupProgress) -> (outcome: Result<String, AdlisacError>)
    ensures
        match progress {
            SetupProgress::KeyboardFailed(detail) => outcome matches Err(
                AdlisacError::InternalSmithay(text),
            ) && text@ == keyboard_failure_prefix() + detail@,
            SetupProgress::SocketBound(Err(bind_error)) => outcome matches Err(
                AdlisacError::SocketCreationFailed(reported),
            ) && reported == bind_error,
            SetupProgress::SocketBound(Ok(Some(name))) => outcome matches Ok(kept) && kept@ == name@,
            SetupProgress::SocketBound(Ok(None)) => outcome matches Err(
                AdlisacError::ProtocolInitError(text),
            ) && text@ == missing_socket_name_text(),
        },
{
    match progress {
        SetupProgress::KeyboardFailed(detail) => Err(keyboard_failure(detail.as_str())),
        SetupProgress::SocketBound(Err(bind_error)) => Err(AdlisacError::SocketCreationFailed(bind_error)),
        SetupProgress::SocketBound(Ok(reported)) => socket_name_result(reported),
    }
}

/// The location listed for a mapped window: the one the space reports, or
/// the origin when it reports none.
pub open spec fn listed_location(reported: Option<Location>) -> Location {
    match reported {
        Some(location) => location,
        None => Location { x: 0, y: 0 },
    }
}

/// The locations listed for the mapped windows, one for each, in the order
/// of the space's elements.
pub fn listed_locations(reported: &Vec<Option<Location>>) -> (locations: Vec<Location>)
    ensures
        locations@.len() == reported@.len(),
        forall|i: int|
            0 <= i < reported@.len() ==> #[trigger] locations@[i] == listed_location(reported@[i]),
        forall|i: int|
            0 <= i < reported@.len() ==> #[trigger] locations@[i] == match reported@[i] {
                Some(location) => location,
                None => Location { x: 0, y: 0 },
            },
{
    let mut locations: Vec<Location> = Vec::new();
    let mut i: usize = 0;
    while i < reported.len()
        invariant
            i <= reported@.len(),
            locations@.len() == i,
            forall|j: int|
                0 <= j < i ==> #[trigger] locations@[j] == listed_location(reported@[j]),
        decreases reported@.len() - i,
    {
        let location = match reported[i] {
            Some(location) => location,
            None => Location::origin(),
        };
        locations.push(location);
        i = i + 1;
    }
    locations
}

/// Where a new top-level window is mapped, and whether it is activated.
pub struct ToplevelPlacement {
    pub location: Location,
    pub activate: bool,
}

/// A new top-level window is mapped at the origin and activated.
pub fn toplevel_placement() -> (placement: ToplevelPlacement)
    ensures
        placement.location == (Location { x: 0, y: 0 }),
        placement.activate,
{
    ToplevelPlacement { location: Location::origin(), activate: true }
}

/// Whether a new top-level window receives keyboard focus: exactly when
/// there is a seat and the first seat has a keyboard.
pub fn focuses_new_toplevel(seat_count: usize, first_seat_has_keyboard: bool) -> (focus: bool)
    ensures
        focus == (seat_count > 0 && first_seat_has_keyboard),
{
    seat_count > 0 && first_seat_has_keyboard
}

/// The per-client compositor state used for a client: its own, or the
/// shared fallback when the client carries none.
pub fn client_state_or_fallback<'a, T>(own: Option<&'a T>, fallback: &'a T) -> (state: &'a T)
    ensures
        match own {
            Some(found) => state == found,
            None => state == fallback,
        },
{
    match own {
        Some(found) => found,
        None => fallback,
    }
}

} // verus!

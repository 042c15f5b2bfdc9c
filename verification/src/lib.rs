//! Verified core of the Adlisac embedded Wayland compositor: the error
//! types, the rules by which client processes are launched, the decisions
//! the compositor state and its GTK widget take, and the translation of
//! toolkit input into Wayland input codes.

pub mod error;
pub mod text;
pub mod client;
pub mod launch;
pub mod state;
pub mod widget;
pub mod render;

//! Errors raised while setting up the compositor and while bridging its
//! event loop into the toolkit's main loop.

use vstd::prelude::*;
use vstd::string::*;
use crate::text::{has_prefix, lemma_concat_has_prefix};

verus! {

#[verifier::external_type_specification]
#[verifier::external_body]
pub struct ExBindError(wayland_server::BindError);

#[verifier::external_type_specification]
#[verifier::external_body]
pub struct ExIoError(std::io::Error);

/// Errors of the compositor state.
pub enum AdlisacError {
    /// The Wayland display handle could not be created.
    DisplayInitFailed,
    /// No listening socket could be bound.
    SocketCreationFailed(wayland_server::BindError),
    /// A protocol (or the client process) could not be set up.
    ProtocolInitError(String),
    /// Smithay reported an internal failure.
    InternalSmithay(String),
}

/// Errors of the bridge between the Wayland display and the toolkit loop.
pub enum BridgeError {
    /// Dispatching pending Wayland events failed.
    DispatchFailed(std::io::Error),
    /// Flushing the display to its clients failed.
    FlushFailed(std::io::Error),
}

pub open spec fn display_init_text() -> Seq<char> {
    "Failed to initialize wayland display handle"@
}

pub open spec fn socket_creation_prefix() -> Seq<char> {
    "Failed to create wayland socket: "@
}

pub open spec fn protocol_init_prefix() -> Seq<char> {
    "Failed to initialize wayland protocol: "@
}

pub open spec fn internal_smithay_prefix() -> Seq<char> {
    "Internal smithay error: "@
}

pub open spec fn dispatch_failed_text() -> Seq<char> {
    "Failed to dispatch wayland event"@
}

pub open spec fn flush_failed_text() -> Seq<char> {
    "Failed to flush wayland display"@
}

/// The kinds of failure to bind a listening socket, one for each variant
/// of `wayland_server::BindError`.
#[derive(Clone, Copy, PartialEq, Eq, Structural, Debug)]
pub enum BindFailure {
    /// `XDG_RUNTIME_DIR` is not set or not an absolute path.
    RuntimeDirNotSet,
    /// No file could be created in `XDG_RUNTIME_DIR`.
    PermissionDenied,
    /// Every socket name tried is in use.
    AlreadyInUse,
    /// Another I/O error.
    Io,
}

/// Which variant a `BindError` is.
pub uninterp spec fn bind_failure_of(error: wayland_server::BindError) -> BindFailure;

/// Tells the variants of `wayland_server::BindError` apart, one arm each.
/// Claimed: the result is `bind_failure_of` the error.
#[verifier::external_body]
fn bind_failure(error: &wayland_server::BindError) -> (kind: BindFailure)
    ensures
        kind == bind_failure_of(*error),
{
    match error {
        wayland_server::BindError::RuntimeDirNotSet => BindFailure::RuntimeDirNotSet,
        wayland_server::BindError::PermissionDenied => BindFailure::PermissionDenied,
        wayland_server::BindError::AlreadyInUse => BindFailure::AlreadyInUse,
        wayland_server::BindError::Io(_) => BindFailure::Io,
    }
}

/// What `BindError`'s `Display` writes for a failure of the given kind: a
/// fixed text for three kinds; for an I/O failure, `I/O error: ` followed
/// by the operating system's text.
pub open spec fn bind_error_detail(kind: BindFailure, text: Seq<char>) -> bool {
    match kind {
        BindFailure::RuntimeDirNotSet => text == "Environment variable XDG_RUNTIME_DIR is not set or invalid"@,
        BindFailure::PermissionDenied => text == "Could not write to XDG_RUNTIME_DIR"@,
        BindFailure::AlreadyInUse => text == "Requested socket name is already in use"@,
        BindFailure::Io => has_prefix(text, "I/O error: "@),
    }
}

/// The text of a `BindError`, as `wayland_server::BindError`'s `Display`
/// writes it. Claimed, as that impl's source shows: the fixed text of its
/// variant, or for `Io` a text beginning with `I/O error: ` (the rest is the
/// operating system's, and is not stated).
#[verifier::external_body]
fn bind_error_text(error: &wayland_server::BindError) -> (text: String)
    ensures
        bind_error_detail(bind_failure_of(*error), text@),
{
    format!("{}", error)
}

/// The message of a socket failure, given the text of the `BindError`.
pub fn socket_failure_message(detail: &str) -> (text: String)
    ensures
        text@ == socket_creation_prefix() + detail@,
{
    String::from_str("Failed to create wayland socket: ").concat(detail)
}

impl AdlisacError {
    /// The human-readable message of the error (what its `Display` shows).
    pub fn message(&self) -> (text: String)
        ensures
            match self {
                AdlisacError::DisplayInitFailed => text@ == display_init_text(),
                AdlisacError::SocketCreationFailed(source) => has_prefix(
                    text@,
                    socket_creation_prefix(),
                ) && bind_error_detail(
                    bind_failure_of(*source),
                    text@.subrange(socket_creation_prefix().len() as int, text@.len() as int),
                ),
                AdlisacError::ProtocolInitError(detail) => text@ == protocol_init_prefix() + detail@,
                AdlisacError::InternalSmithay(detail) => text@ == internal_smithay_prefix() + detail@,
            },
    {
        match self {
            AdlisacError::DisplayInitFailed => {
                String::from_str("Failed to initialize wayland display handle")
            },
            AdlisacError::SocketCreationFailed(source) => {
                let detail = bind_error_text(source);
                let text = socket_failure_message(detail.as_str());
                proof {
                    lemma_concat_has_prefix(socket_creation_prefix(), detail@);
                    assert(text@.subrange(socket_creation_prefix().len() as int, text@.len() as int)
                        =~= detail@);
                }
                text
            },
            AdlisacError::ProtocolInitError(detail) => {
                String::from_str("Failed to initialize wayland protocol: ").concat(detail.as_str())
            },
            AdlisacError::InternalSmithay(detail) => {
                String::from_str("Internal smithay error: ").concat(detail.as_str())
            },
        }
    }
}

impl AdlisacError {
    /// The kind of socket failure, for a `SocketCreationFailed` error.
    pub fn socket_failure(&self) -> (kind: Option<BindFailure>)
        ensures
            match self {
                AdlisacError::SocketCreationFailed(source) => kind == Some(bind_failure_of(*source)),
                _ => kind is None,
            },
    {
        match self {
            AdlisacError::SocketCreationFailed(source) => Some(bind_failure(source)),
            _ => None,
        }
    }

    /// The diagnostic code of the error.
    pub fn code(&self) -> (code: &'static str)
        ensures
            code@ == match self {
                AdlisacError::DisplayInitFailed => "adlisac::display_init_failed"@,
                AdlisacError::SocketCreationFailed(_) => "adlisac::socket_creation_failed"@,
                AdlisacError::ProtocolInitError(_) => "adlisac::protocol_init_failed"@,
                AdlisacError::InternalSmithay(_) => "adlisac::internal_smithay_error"@,
            },
    {
        match self {
            AdlisacError::DisplayInitFailed => "adlisac::display_init_failed",
            AdlisacError::SocketCreationFailed(_) => "adlisac::socket_creation_failed",
            AdlisacError::ProtocolInitError(_) => "adlisac::protocol_init_failed",
            AdlisacError::InternalSmithay(_) => "adlisac::internal_smithay_error",
        }
    }

    /// The advice shown with the error, if any: only a socket failure has
    /// one.
    pub fn help(&self) -> (help: Option<&'static str>)
        ensures
            match self {
                AdlisacError::SocketCreationFailed(_) => help matches Some(advice) && advice@
                    == "Please check if XDG_RUNTIME_DIR has been set and is writeable."@,
                _ => help is None,
            },
    {
        match self {
            AdlisacError::SocketCreationFailed(_) => Some(
                "Please check if XDG_RUNTIME_DIR has been set and is writeable.",
            ),
            _ => None,
        }
    }
}

impl From<wayland_server::BindError> for AdlisacError {
    fn from(source: wayland_server::BindError) -> (error: Self) {
        AdlisacError::SocketCreationFailed(source)
    }
}

impl vstd::std_specs::convert::FromSpecImpl<wayland_server::BindError> for AdlisacError {
    open spec fn obeys_from_spec() -> bool {
        true
    }

    open spec fn from_spec(source: wayland_server::BindError) -> Self {
        AdlisacError::SocketCreationFailed(source)
    }
}

impl BridgeError {
    /// The human-readable message of the error (what its `Display` shows).
    pub fn message(&self) -> (text: String)
        ensures
            match self {
                BridgeError::DispatchFailed(_) => text@ == dispatch_failed_text(),
                BridgeError::FlushFailed(_) => text@ == flush_failed_text(),
            },
    {
        match self {
            BridgeError::DispatchFailed(_) => String::from_str("Failed to dispatch wayland event"),
            BridgeError::FlushFailed(_) => String::from_str("Failed to flush wayland display"),
        }
    }

    /// The I/O error that caused this one (its `source`).
    pub fn source(&self) -> (cause: &std::io::Error)
        ensures
            match self {
                BridgeError::DispatchFailed(io) => cause == io,
                BridgeError::FlushFailed(io) => cause == io,
            },
    {
        match self {
            BridgeError::DispatchFailed(io) => io,
            BridgeError::FlushFailed(io) => io,
        }
    }
}

} // verus!

use adlisac::error::BindFailure;
use adlisac::error::{AdlisacError, BridgeError};
use std::io::{Error, ErrorKind};
use wayland_server::BindError;

#[test]
fn display_init_message() {
    assert_eq!(AdlisacError::DisplayInitFailed.message(), "Failed to initialize wayland display handle");
}

#[test]
fn socket_creation_message_includes_bind_error() {
    let error = AdlisacError::SocketCreationFailed(BindError::AlreadyInUse);
    assert_eq!(error.message(), "Failed to create wayland socket: Requested socket name is already in use");
    let error = AdlisacError::SocketCreationFailed(BindError::RuntimeDirNotSet);
    assert_eq!(
        error.message(),
        "Failed to create wayland socket: Environment variable XDG_RUNTIME_DIR is not set or invalid"
    );
}

#[test]
fn protocol_init_message() {
    let error = AdlisacError::ProtocolInitError("no name".to_string());
    assert_eq!(error.message(), "Failed to initialize wayland protocol: no name");
}

#[test]
fn internal_smithay_message() {
    let error = AdlisacError::InternalSmithay(String::new());
    assert_eq!(error.message(), "Internal smithay error: ");
}

#[test]
fn bind_error_converts_into_socket_failure() {
    let error: AdlisacError = BindError::PermissionDenied.into();
    match error {
        AdlisacError::SocketCreationFailed(BindError::PermissionDenied) => {}
        _ => panic!("wrong variant"),
    }
}

#[test]
fn bridge_messages_and_sources() {
    let dispatch = BridgeError::DispatchFailed(Error::new(ErrorKind::BrokenPipe, "pipe gone"));
    assert_eq!(dispatch.message(), "Failed to dispatch wayland event");
    assert_eq!(dispatch.source().kind(), ErrorKind::BrokenPipe);
    assert_eq!(dispatch.source().to_string(), "pipe gone");
    let flush = BridgeError::FlushFailed(Error::new(ErrorKind::WouldBlock, "later"));
    assert_eq!(flush.message(), "Failed to flush wayland display");
    assert_eq!(flush.source().kind(), ErrorKind::WouldBlock);
}

#[test]
fn socket_failure_message_joins_text() {
    assert_eq!(
        adlisac::error::socket_failure_message("Could not write to XDG_RUNTIME_DIR"),
        "Failed to create wayland socket: Could not write to XDG_RUNTIME_DIR"
    );
}

#[test]
fn socket_creation_message_for_io_failure() {
    let error = AdlisacError::SocketCreationFailed(BindError::Io(Error::new(ErrorKind::Other, "disk full")));
    assert_eq!(error.message(), "Failed to create wayland socket: I/O error: disk full");
}

#[test]
fn socket_failure_kind_is_reported() {

    assert_eq!(AdlisacError::SocketCreationFailed(BindError::RuntimeDirNotSet).socket_failure(), Some(BindFailure::RuntimeDirNotSet));
    assert_eq!(AdlisacError::SocketCreationFailed(BindError::PermissionDenied).socket_failure(), Some(BindFailure::PermissionDenied));
    assert_eq!(AdlisacError::SocketCreationFailed(BindError::AlreadyInUse).socket_failure(), Some(BindFailure::AlreadyInUse));
    assert_eq!(
        AdlisacError::SocketCreationFailed(BindError::Io(Error::new(ErrorKind::Other, "x"))).socket_failure(),
        Some(BindFailure::Io)
    );
    assert_eq!(AdlisacError::DisplayInitFailed.socket_failure(), None);
}

#[test]
fn permission_denied_message() {
    let error = AdlisacError::SocketCreationFailed(BindError::PermissionDenied);
    assert_eq!(error.message(), "Failed to create wayland socket: Could not write to XDG_RUNTIME_DIR");
}

#[test]
fn diagnostic_codes_and_help() {
    assert_eq!(AdlisacError::DisplayInitFailed.code(), "adlisac::display_init_failed");
    assert_eq!(AdlisacError::SocketCreationFailed(BindError::AlreadyInUse).code(), "adlisac::socket_creation_failed");
    assert_eq!(AdlisacError::ProtocolInitError(String::new()).code(), "adlisac::protocol_init_failed");
    assert_eq!(AdlisacError::InternalSmithay(String::new()).code(), "adlisac::internal_smithay_error");
    assert_eq!(
        AdlisacError::SocketCreationFailed(BindError::AlreadyInUse).help(),
        Some("Please check if XDG_RUNTIME_DIR has been set and is writeable.")
    );
    assert_eq!(AdlisacError::DisplayInitFailed.help(), None);
    assert_eq!(AdlisacError::InternalSmithay("x".to_string()).help(), None);
}

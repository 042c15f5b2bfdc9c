use adlisac::client::{client_command, client_invocation, first_found, spawn_failure, terminal_candidates};
use adlisac::error::AdlisacError;
use std::io::{Error, ErrorKind};

#[test]
fn command_points_client_at_socket() {
    let command = client_command(
        "foot".to_string(),
        vec!["-e".to_string(), "htop".to_string()],
        "wayland--3".to_string(),
    );
    assert_eq!(command.program, "foot");
    assert_eq!(command.arguments, vec!["-e".to_string(), "htop".to_string()]);
    assert_eq!(command.environment, vec![("WAYLAND_DISPLAY".to_string(), "wayland--3".to_string())]);
    assert!(command.inherit_stdio);
}

#[test]
fn command_without_arguments() {
    let command = client_command("weston-terminal".to_string(), Vec::new(), String::new());
    assert!(command.arguments.is_empty());
    assert_eq!(command.environment, vec![("WAYLAND_DISPLAY".to_string(), String::new())]);
}

#[test]
fn spawn_failure_names_the_cause() {
    let error = spawn_failure(&Error::new(ErrorKind::NotFound, "no such program"));
    match error {
        AdlisacError::ProtocolInitError(text) => {
            assert_eq!(text, "Failed to spawn child process: no such program")
        }
        _ => panic!("wrong variant"),
    }
}

#[test]
fn terminals_are_tried_in_order() {
    assert_eq!(terminal_candidates(), vec!["alacritty".to_string(), "xterm".to_string()]);
}

#[test]
fn first_found_terminal_wins() {
    assert_eq!(first_found(vec![None, Some("/usr/bin/xterm".to_string())]), Some("/usr/bin/xterm".to_string()));
    assert_eq!(
        first_found(vec![Some("/usr/bin/alacritty".to_string()), Some("/usr/bin/xterm".to_string())]),
        Some("/usr/bin/alacritty".to_string())
    );
    assert_eq!(first_found(vec![None, None]), None);
    assert_eq!(first_found(Vec::new()), None);
}

#[test]
fn given_command_is_split_into_program_and_arguments() {
    let invocation = client_invocation(
        vec!["firefox".to_string(), "--new-window".to_string(), "about:blank".to_string()],
        Some("/usr/bin/alacritty".to_string()),
    );
    assert_eq!(
        invocation,
        Some(("firefox".to_string(), vec!["--new-window".to_string(), "about:blank".to_string()]))
    );
}

#[test]
fn empty_command_falls_back_to_terminal() {
    assert_eq!(
        client_invocation(Vec::new(), Some("/usr/bin/xterm".to_string())),
        Some(("/usr/bin/xterm".to_string(), Vec::new()))
    );
    assert_eq!(client_invocation(Vec::new(), None), None);
}

#[test]
fn spawn_failure_with_detail_joins_text() {
    match adlisac::client::spawn_failure_with_detail("Permission denied (os error 13)") {
        AdlisacError::ProtocolInitError(text) => {
            assert_eq!(text, "Failed to spawn child process: Permission denied (os error 13)")
        }
        _ => panic!("wrong variant"),
    }
}

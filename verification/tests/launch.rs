use adlisac::launch::{
    client_argv, client_environment, keeps_inherited_variable, names_display_variable, program_to_resolve,
    shell_program, with_shell,
};

fn bytes(text: &str) -> Vec<u8> {
    text.as_bytes().to_vec()
}

fn words(texts: &[&str]) -> Vec<Vec<u8>> {
    texts.iter().map(|text| bytes(text)).collect()
}

#[test]
fn display_names_are_recognised() {
    assert!(names_display_variable("WAYLAND_DISPLAY"));
    assert!(names_display_variable("WAYLAND_DISPLAY_OLD"));
    assert!(!names_display_variable("WAYLAND_DISPLA"));
    assert!(!names_display_variable("XWAYLAND_DISPLAY"));
    assert!(!names_display_variable(""));
}

#[test]
fn display_variables_are_dropped_in_any_case() {
    assert!(!keeps_inherited_variable(&bytes("WAYLAND_DISPLAY")));
    assert!(!keeps_inherited_variable(&bytes("wayland_display")));
    assert!(!keeps_inherited_variable(&bytes("Wayland_Display_2")));
    assert!(keeps_inherited_variable(&bytes("HOME")));
    assert!(keeps_inherited_variable(&bytes("DISPLAY")));
    assert!(keeps_inherited_variable(&vec![0xff, 0xfe]));
}

#[test]
fn environment_keeps_other_variables_and_names_socket() {
    let vars = vec![
        (bytes("HOME"), bytes("/home/user")),
        (bytes("WAYLAND_DISPLAY"), bytes("wayland-0")),
        (bytes("LANG"), bytes("de_DE.UTF-8")),
        (bytes("wayland_display"), bytes("x")),
        (vec![0x4b, 0xff], vec![0x80]),
    ];
    let entries = client_environment(&vars, "/tmp/io.smearor.casilda.simple.sock");
    assert_eq!(
        entries,
        vec![
            bytes("HOME=/home/user"),
            bytes("LANG=de_DE.UTF-8"),
            vec![0x4b, 0xff, b'=', 0x80],
            bytes("WAYLAND_DISPLAY=/tmp/io.smearor.casilda.simple.sock"),
            bytes("WINIT_UNIX_BACKEND=wayland"),
            bytes("GDK_BACKEND=wayland"),
            bytes("WLR_NO_HARDWARE_CURSORS=1"),
        ]
    );
}

#[test]
fn empty_environment_still_names_socket() {
    let entries = client_environment(&Vec::new(), "s");
    assert_eq!(entries.len(), 4);
    assert_eq!(entries[0], bytes("WAYLAND_DISPLAY=s"));
}

#[test]
fn shell_option_prefixes_command() {
    assert_eq!(shell_program(), "sh");
    let args = with_shell(words(&["ls", "-l"]), true, Some(bytes("/bin/sh")));
    assert_eq!(args, words(&["/bin/sh", "-c", "ls", "-l"]));
}

#[test]
fn shell_option_without_shell_found_keeps_command() {
    assert_eq!(with_shell(words(&["ls"]), true, None), words(&["ls"]));
    assert_eq!(with_shell(words(&["ls"]), false, Some(bytes("/bin/sh"))), words(&["ls"]));
}

#[test]
fn program_to_resolve_is_first_word_or_terminal() {
    assert_eq!(program_to_resolve(&words(&["gedit", "a.txt"])), bytes("gedit"));
    assert_eq!(program_to_resolve(&Vec::new()), bytes("alacritty"));
}

#[test]
fn argv_uses_resolved_program() {
    let argv = client_argv(words(&["gedit", "a.txt"]), Some(bytes("/usr/bin/gedit")));
    assert_eq!(argv, words(&["/usr/bin/gedit", "a.txt"]));
    let argv = client_argv(words(&["gedit", "a.txt"]), None);
    assert_eq!(argv, words(&["gedit", "a.txt"]));
}

#[test]
fn argv_defaults_to_terminal_with_options() {
    let expected_options = [
        "--option",
        "window.decorations=\"None\"",
        "--option",
        "window.startup_mode=\"Maximized\"",
        "--option",
        "window.padding.x=0",
        "--option",
        "window.padding.y=0",
        "--option",
        "window.opacity=0.5",
    ];
    let mut expected = vec![bytes("/usr/bin/alacritty")];
    expected.extend(words(&expected_options));
    assert_eq!(client_argv(Vec::new(), Some(bytes("/usr/bin/alacritty"))), expected);
    let mut expected = vec![bytes("alacritty")];
    expected.extend(words(&expected_options));
    assert_eq!(client_argv(Vec::new(), None), expected);
}

#[test]
fn shell_then_argv_passes_words_to_shell() {
    let args = with_shell(words(&["echo", "hi"]), true, Some(bytes("sh")));
    let argv = client_argv(args, Some(bytes("/usr/bin/sh")));
    assert_eq!(argv, words(&["/usr/bin/sh", "-c", "echo", "hi"]));
}

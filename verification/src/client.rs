//! How a Wayland client process is launched against the compositor: the
//! program, its arguments, and the environment that points it at the
//! compositor's socket.

use crate::error::AdlisacError;
use crate::text::{has_prefix, lemma_concat_has_prefix};
use vstd::prelude::*;
use vstd::string::*;

verus! {

/// Everything needed to start a client process; the process itself is
/// spawned by the caller.
pub struct ClientCommand {
    /// The executable to run.
    pub program: String,
    /// Its command-line arguments, in order.
    pub arguments: Vec<String>,
    /// Variables set in the child's environment, on top of the inherited ones.
    pub environment: Vec<(String, String)>,
    /// Whether the child inherits standard input, output and error.
    pub inherit_stdio: bool,
}

/// Name of the variable that tells a client which compositor socket to use.
pub open spec fn display_variable() -> Seq<char> {
    "WAYLAND_DISPLAY"@
}

pub open spec fn spawn_failure_prefix() -> Seq<char> {
    "Failed to spawn child process: "@
}

/// Describes the launch of `executable_name` with `arguments`, connected to
/// the compositor listening on `wayland_socket_name`.
pub fn client_command(
    executable_name: String,
    arguments: Vec<String>,
    wayland_socket_name: String,
) -> (command: ClientCommand)
    ensures
        command.program@ == executable_name@,
        command.arguments@ == arguments@,
        command.environment@.len() == 1,
        command.environment@[0].0@ == display_variable(),
        command.environment@[0].0@ == "WAYLAND_DISPLAY"@,
        command.environment@[0].1@ == wayland_socket_name@,
        command.inherit_stdio,
{
    let mut environment: Vec<(String, String)> = Vec::new();
    environment.push((String::from_str("WAYLAND_DISPLAY"), wayland_socket_name));
    ClientCommand {
        program: executable_name,
        arguments,
        environment,
        inherit_stdio: true,
    }
}

/// The text of an I/O error, as its `Display` writes it.
/// `std::io::Error`'s `Display` is called; nothing is claimed of the text,
/// which comes from the operating system.
#[verifier::external_body]
fn io_error_text(error: &std::io::Error) -> String {
    format!("{}", error)
}

/// The error reported when the client process could not be started, given
/// the text of the I/O error: the fixed message followed by that text.
pub fn spawn_failure_with_detail(detail: &str) -> (error: AdlisacError)
    ensures
        error matches AdlisacError::ProtocolInitError(text) && text@ == spawn_failure_prefix()
            + detail@,
{
    AdlisacError::ProtocolInitError(String::from_str("Failed to spawn child process: ").concat(detail))
}

/// The error reported when the client process could not be started: the
/// fixed message followed by the I/O error's text (which the operating
/// system supplies, so only the fixed part is stated here; the joining
/// itself is stated by `spawn_failure_with_detail`).
pub fn spawn_failure(io_error: &std::io::Error) -> (error: AdlisacError)
    ensures
        error matches AdlisacError::ProtocolInitError(text) && has_prefix(
            text@,
            spawn_failure_prefix(),
        ),
{
    let detail = io_error_text(io_error);
    let error = spawn_failure_with_detail(detail.as_str());
    proof {
        lemma_concat_has_prefix(spawn_failure_prefix(), detail@);
    }
    error
}

/// The terminal emulators tried, in order, when no client command was given.
pub fn terminal_candidates() -> (names: Vec<String>)
    ensures
        names@.len() == 2,
        names@[0]@ == "alacritty"@,
        names@[1]@ == "xterm"@,
{
    let mut names: Vec<String> = Vec::new();
    names.push(String::from_str("alacritty"));
    names.push(String::from_str("xterm"));
    names
}

/// Index of the first `Some` in `found`, or `found.len()` if there is none.
pub open spec fn first_some_index<T>(found: Seq<Option<T>>) -> int
    decreases found.len(),
{
    if found.len() == 0 {
        0
    } else if found[0] is Some {
        0
    } else {
        1 + first_some_index(found.drop_first())
    }
}

proof fn lemma_first_some_index<T>(found: Seq<Option<T>>)
    ensures
        0 <= first_some_index(found) <= found.len(),
        forall|i: int| 0 <= i < first_some_index(found) ==> found[i] is None,
        first_some_index(found) < found.len() ==> found[first_some_index(found)] is Some,
    decreases found.len(),
{
    if found.len() > 0 && found[0] is None {
        lemma_first_some_index(found.drop_first());
        assert forall|i: int| 0 <= i < first_some_index(found) implies found[i] is None by {
            if i > 0 {
                assert(found[i] == found.drop_first()[i - 1]);
            }
        }
    }
}

/// The first candidate that was found, given the lookup result of each
/// candidate in order.
pub fn first_found(found: Vec<Option<String>>) -> (choice: Option<String>)
    ensures
        first_some_index(found@) < found@.len() ==> choice == found@[first_some_index(found@)],
        first_some_index(found@) == found@.len() ==> choice is None,
        choice is None <==> forall|i: int| 0 <= i < found@.len() ==> found@[i] is None,
{
    proof {
        lemma_first_some_index(found@);
    }
    let mut i: usize = 0;
    while i < found.len()
        invariant
            i <= found@.len(),
            forall|j: int| 0 <= j < i ==> found@[j] is None,
            i <= first_some_index(found@),
            0 <= first_some_index(found@) <= found@.len(),
            forall|j: int| 0 <= j < first_some_index(found@) ==> found@[j] is None,
            first_some_index(found@) < found@.len() ==> found@[first_some_index(found@)] is Some,
        decreases found@.len() - i,
    {
        if found[i].is_some() {
            assert(i == first_some_index(found@));
            return found[i].clone();
        }
        i = i + 1;
    }
    None
}

/// The program and its arguments for the client to start: the given
/// command line, or else the fallback terminal alone; `None` when there is
/// neither.
pub fn client_invocation(run_args: Vec<String>, fallback_terminal: Option<String>) -> (invocation:
    Option<(String, Vec<String>)>)
    ensures
        run_args@.len() > 0 ==> (invocation matches Some((program, arguments)) && program@
            == run_args@[0]@ && arguments@ == run_args@.drop_first()),
        run_args@.len() == 0 ==> match fallback_terminal {
            Some(terminal) => (invocation matches Some((program, arguments)) && program@
                == terminal@ && arguments@.len() == 0),
            None => invocation is None,
        },
{
    let mut run_args = run_args;
    if run_args.len() == 0 {
        match fallback_terminal {
            Some(terminal) => Some((terminal, Vec::new())),
            None => None,
        }
    } else {
        let program = run_args.remove(0);
        Some((program, run_args))
    }
}

} // verus!

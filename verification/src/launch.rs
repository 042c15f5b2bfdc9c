//! Launching a client inside an embedded compositor widget that listens on a
//! named socket: the client's environment and its argument vector.
//!
//! Arguments, environment names and values are raw bytes (the platform's
//! `OsString`), so that nothing the user passes is altered on the way.

use crate::client::display_variable;
use crate::text::has_prefix;
use vstd::prelude::*;
use vstd::slice::slice_to_vec;
use vstd::string::*;
use vstd::utf8::{decode_utf8, encode_utf8, valid_utf8};

verus! {

/// What `String::from_utf8_lossy` makes of the given bytes.
pub uninterp spec fn utf8_lossy(bytes: Seq<u8>) -> Seq<char>;

/// What `str::to_uppercase` makes of the given text.
pub uninterp spec fn upper_case(text: Seq<char>) -> Seq<char>;

/// `String::from_utf8_lossy`, converted to an owned `String`.
/// Claimed: the result is `utf8_lossy` of the bytes, and, as the
/// documentation states, bytes that are valid UTF-8 come back unchanged.
#[verifier::external_body]
fn lossy_text(bytes: &[u8]) -> (text: String)
    ensures
        text@ == utf8_lossy(bytes@),
        valid_utf8(bytes@) ==> text@ == decode_utf8(bytes@),
{
    String::from_utf8_lossy(bytes).into_owned()
}

/// `str::to_uppercase`. Claimed: the result is `upper_case` of the text
/// (a fixed function of the text, given by std's Unicode tables).
#[verifier::external_body]
fn upper_text(text: &str) -> (upper: String)
    ensures
        upper@ == upper_case(text@),
{
    text.to_uppercase()
}

/// Whether an upper-cased variable name designates the display socket,
/// that is, begins with `WAYLAND_DISPLAY`.
pub fn names_display_variable(upper_name: &str) -> (designates: bool)
    ensures
        designates == has_prefix(upper_name@, display_variable()),
        designates == has_prefix(upper_name@, "WAYLAND_DISPLAY"@),
{
    let prefix = "WAYLAND_DISPLAY";
    let n = prefix.unicode_len();
    if upper_name.unicode_len() < n {
        return false;
    }
    let mut i: usize = 0;
    while i < n
        invariant
            i <= n,
            n == prefix@.len(),
            n <= upper_name@.len(),
            prefix@ == display_variable(),
            forall|j: int| 0 <= j < i ==> upper_name@[j] == prefix@[j],
        decreases n - i,
    {
        if upper_name.get_char(i) != prefix.get_char(i) {
            assert(upper_name@.subrange(0, n as int)[i as int] != prefix@[i as int]);
            return false;
        }
        i = i + 1;
    }
    assert(upper_name@.subrange(0, n as int) =~= prefix@);
    true
}

/// An inherited variable is passed on unless its name, decoded lossily and
/// upper-cased, begins with `WAYLAND_DISPLAY`.
pub open spec fn keeps_variable(name: Seq<u8>) -> bool {
    !has_prefix(upper_case(utf8_lossy(name)), display_variable())
}

/// The `NAME=value` entry of a variable.
pub open spec fn env_entry(name: Seq<u8>, value: Seq<u8>) -> Seq<u8> {
    name + seq![61u8] + value
}

/// The entries of the inherited variables that are kept, in their order.
pub open spec fn inherited_entries(vars: Seq<(Seq<u8>, Seq<u8>)>) -> Seq<Seq<u8>>
    decreases vars.len(),
{
    if vars.len() == 0 {
        Seq::empty()
    } else {
        let rest = inherited_entries(vars.drop_last());
        if keeps_variable(vars.last().0) {
            rest.push(env_entry(vars.last().0, vars.last().1))
        } else {
            rest
        }
    }
}

/// The entries appended after the inherited ones: the compositor's socket
/// and the variables that make toolkits choose their Wayland backend.
pub open spec fn wayland_entries(socket: Seq<char>) -> Seq<Seq<u8>> {
    seq![
        encode_utf8("WAYLAND_DISPLAY="@ + socket),
        encode_utf8("WINIT_UNIX_BACKEND=wayland"@),
        encode_utf8("GDK_BACKEND=wayland"@),
        encode_utf8("WLR_NO_HARDWARE_CURSORS=1"@),
    ]
}

fn text_bytes(text: &str) -> (bytes: Vec<u8>)
    ensures
        bytes@ == encode_utf8(text@),
{
    text.as_bytes_vec()
}

fn copy_bytes(bytes: &Vec<u8>) -> (copy: Vec<u8>)
    ensures
        copy@ == bytes@,
{
    slice_to_vec(bytes.as_slice())
}

proof fn lemma_bytes_deep_view(bytes: Vec<u8>)
    ensures
        bytes.deep_view() == bytes@,
{
    assert(bytes.deep_view() =~= bytes@);
}

/// Whether the inherited variable `name` is passed on to the client.
pub fn keeps_inherited_variable(name: &Vec<u8>) -> (kept: bool)
    ensures
        kept == keeps_variable(name@),
        kept == !has_prefix(upper_case(utf8_lossy(name@)), "WAYLAND_DISPLAY"@),
{
    let lossy = lossy_text(name.as_slice());
    let upper = upper_text(lossy.as_str());
    !names_display_variable(upper.as_str())
}

/// The environment of a client: the inherited variables `vars` (name and
/// value) except those that designate a display socket, as `NAME=value`
/// entries in their order, followed by the entries that point the client at
/// the compositor listening on `socket`.
pub fn client_environment(vars: &Vec<(Vec<u8>, Vec<u8>)>, socket: &str) -> (entries: Vec<Vec<u8>>)
    ensures
        entries.deep_view() == inherited_entries(vars.deep_view()) + wayland_entries(socket@),
{
    let mut entries: Vec<Vec<u8>> = Vec::new();
    let mut i: usize = 0;
    while i < vars.len()
        invariant
            i <= vars@.len(),
            entries.deep_view() == inherited_entries(vars.deep_view().take(i as int)),
        decreases vars@.len() - i,
    {
        let name = &vars[i].0;
        let value = &vars[i].1;
        proof {
            lemma_bytes_deep_view(*name);
            lemma_bytes_deep_view(*value);
            assert(vars.deep_view().take(i + 1).drop_last() =~= vars.deep_view().take(i as int));
            assert(vars.deep_view().take(i + 1).last() == (name@, value@));
        }
        if keeps_inherited_variable(name) {
            let mut entry = copy_bytes(name);
            entry.push(61u8);
            let mut tail = copy_bytes(value);
            entry.append(&mut tail);
            assert(entry@ =~= env_entry(name@, value@));
            let ghost before = entries.deep_view();
            entries.push(entry);
            proof {
                lemma_bytes_deep_view(entry);
                assert(entries.deep_view() =~= before.push(env_entry(name@, value@)));
            }
        }
        i = i + 1;
    }
    assert(vars.deep_view().take(vars@.len() as int) =~= vars.deep_view());
    let ghost inherited = entries.deep_view();
    let socket_entry = String::from_str("WAYLAND_DISPLAY=").concat(socket);
    let fixed = [
        text_bytes(socket_entry.as_str()),
        text_bytes("WINIT_UNIX_BACKEND=wayland"),
        text_bytes("GDK_BACKEND=wayland"),
        text_bytes("WLR_NO_HARDWARE_CURSORS=1"),
    ];
    let mut k: usize = 0;
    while k < 4
        invariant
            k <= 4,
            entries.deep_view() == inherited + wayland_entries(socket@).take(k as int),
            forall|j: int| 0 <= j < 4 ==> #[trigger] fixed@[j]@ == wayland_entries(socket@)[j],
        decreases 4 - k,
    {
        let entry = copy_bytes(&fixed[k]);
        let ghost before = entries.deep_view();
        entries.push(entry);
        proof {
            lemma_bytes_deep_view(entry);
            assert(entries.deep_view() =~= before.push(wayland_entries(socket@)[k as int]));
            assert(wayland_entries(socket@).take(k + 1) =~= wayland_entries(socket@).take(
                k as int,
            ).push(wayland_entries(socket@)[k as int]));
        }
        k = k + 1;
    }
    assert(wayland_entries(socket@).take(4) =~= wayland_entries(socket@));
    entries
}

/// The program looked up on `PATH` to run a command through a shell.
pub fn shell_program() -> (name: &'static str)
    ensures
        name@ == "sh"@,
{
    "sh"
}

/// The command line after the shell option: with `shell` set and the shell
/// found at `sh_path`, the shell and `-c` come before the user's words;
/// otherwise they are unchanged.
pub open spec fn shell_prefixed(run_args: Seq<Seq<u8>>, shell: bool, sh_path: Option<Seq<u8>>) -> Seq<
    Seq<u8>,
> {
    if shell && sh_path is Some {
        seq![sh_path->0, encode_utf8("-c"@)] + run_args
    } else {
        run_args
    }
}

/// Applies the shell option to the user's command line.
pub fn with_shell(run_args: Vec<Vec<u8>>, shell: bool, sh_path: Option<Vec<u8>>) -> (args: Vec<
    Vec<u8>,
>)
    ensures
        args.deep_view() == shell_prefixed(run_args.deep_view(), shell, sh_path.deep_view()),
        !shell ==> args.deep_view() == run_args.deep_view(),
        sh_path is None ==> args.deep_view() == run_args.deep_view(),
        shell && sh_path is Some ==> args.deep_view() == seq![
            sh_path.deep_view()->0,
            encode_utf8("-c"@),
        ] + run_args.deep_view(),
{
    proof {
        lemma_shell_option(run_args.deep_view(), shell, sh_path.deep_view());
    }
    if shell {
        match sh_path {
            Some(sh) => {
                let mut args: Vec<Vec<u8>> = Vec::new();
                let ghost sh_view = sh@;
                proof {
                    lemma_bytes_deep_view(sh);
                }
                args.push(sh);
                let dash_c = text_bytes("-c");
                proof {
                    lemma_bytes_deep_view(dash_c);
                }
                args.push(dash_c);
                let ghost head = args.deep_view();
                assert(head =~= seq![sh_view, encode_utf8("-c"@)]);
                let mut rest = run_args;
                let ghost rest_view = rest.deep_view();
                args.append(&mut rest);
                assert(args.deep_view() =~= head + rest_view);
                args
            },
            None => run_args,
        }
    } else {
        run_args
    }
}

/// The terminal started when no command was given.
pub open spec fn default_terminal() -> Seq<u8> {
    encode_utf8("alacritty"@)
}

/// The options the default terminal is started with.
pub open spec fn default_terminal_options() -> Seq<Seq<u8>> {
    seq![
        encode_utf8("--option"@),
        encode_utf8("window.decorations=\"None\""@),
        encode_utf8("--option"@),
        encode_utf8("window.startup_mode=\"Maximized\""@),
        encode_utf8("--option"@),
        encode_utf8("window.padding.x=0"@),
        encode_utf8("--option"@),
        encode_utf8("window.padding.y=0"@),
        encode_utf8("--option"@),
        encode_utf8("window.opacity=0.5"@),
    ]
}

/// The program whose location on `PATH` is looked up: the first word of the
/// command line, or the default terminal when there is none.
pub open spec fn program_name(run_args: Seq<Seq<u8>>) -> Seq<u8> {
    if run_args.len() > 0 {
        run_args[0]
    } else {
        default_terminal()
    }
}

/// The argument vector of the client: the looked-up program (`resolved`,
/// or the name itself when it was not found), then the rest of the command
/// line, or the default terminal's options when no command was given.
pub open spec fn client_argv_spec(run_args: Seq<Seq<u8>>, resolved: Option<Seq<u8>>) -> Seq<
    Seq<u8>,
> {
    let program = match resolved {
        Some(path) => path,
        None => program_name(run_args),
    };
    if run_args.len() > 0 {
        seq![program] + run_args.drop_first()
    } else {
        seq![program] + default_terminal_options()
    }
}

/// The program to look up on `PATH` before starting the client.
pub fn program_to_resolve(run_args: &Vec<Vec<u8>>) -> (name: Vec<u8>)
    ensures
        name@ == program_name(run_args.deep_view()),
        run_args@.len() > 0 ==> name@ == run_args@[0]@,
        run_args@.len() == 0 ==> name@ == encode_utf8("alacritty"@),
{
    proof {
        if run_args@.len() > 0 {
            lemma_bytes_deep_view(run_args@[0]);
        }
    }
    if run_args.len() > 0 {
        copy_bytes(&run_args[0])
    } else {
        text_bytes("alacritty")
    }
}

/// The argument vector of the client, given the command line (after the
/// shell option) and where its program was found on `PATH`, if it was.
pub fn client_argv(run_args: Vec<Vec<u8>>, resolved: Option<Vec<u8>>) -> (argv: Vec<Vec<u8>>)
    ensures
        argv.deep_view() == client_argv_spec(run_args.deep_view(), resolved.deep_view()),
        run_args@.len() > 0 ==> argv@.len() == run_args@.len(),
        run_args@.len() > 0 ==> forall|i: int|
            1 <= i < run_args@.len() ==> #[trigger] argv@[i]@ == run_args@[i]@,
        run_args@.len() > 0 ==> argv@[0]@ == match resolved {
            Some(path) => path@,
            None => run_args@[0]@,
        },
        run_args@.len() == 0 ==> argv@.len() == 11 && argv@[0]@ == match resolved {
            Some(path) => path@,
            None => encode_utf8("alacritty"@),
        },
        run_args@.len() == 0 ==> argv.deep_view().subrange(1, 11) == seq![
            encode_utf8("--option"@),
            encode_utf8("window.decorations=\"None\""@),
            encode_utf8("--option"@),
            encode_utf8("window.startup_mode=\"Maximized\""@),
            encode_utf8("--option"@),
            encode_utf8("window.padding.x=0"@),
            encode_utf8("--option"@),
            encode_utf8("window.padding.y=0"@),
            encode_utf8("--option"@),
            encode_utf8("window.opacity=0.5"@),
        ],
{
    let ghost args_view = run_args.deep_view();
    let ghost resolved_view = resolved.deep_view();
    proof {
        if run_args@.len() > 0 {
            lemma_argv_keeps_arguments(args_view, resolved_view);
            lemma_bytes_deep_view(run_args@[0]);
        } else {
            lemma_argv_default_terminal(resolved_view);
        }
        if resolved is Some {
            lemma_bytes_deep_view(resolved->0);
        }
    }
    let program = match resolved {
        Some(path) => path,
        None => program_to_resolve(&run_args),
    };
    proof {
        lemma_bytes_deep_view(program);
    }
    let mut argv: Vec<Vec<u8>> = Vec::new();
    argv.push(program);
    if run_args.len() > 0 {
        let mut rest = run_args;
        let _first = rest.remove(0);
        assert(rest.deep_view() =~= args_view.drop_first());
        argv.append(&mut rest);
    } else {
        let options = [
            "--option",
            "window.decorations=\"None\"",
            "--option",
            "window.startup_mode=\"Maximized\"",
            "--option",
            "window.padding.x=0",
            "--option",
            "window.padding.y=0",
            "--option",
            "window.opacity=0.5",
        ];
        let mut k: usize = 0;
        while k < 10
            invariant
                k <= 10,
                argv.deep_view() == seq![program@] + default_terminal_options().take(k as int),
                forall|j: int|
                    0 <= j < 10 ==> encode_utf8(#[trigger] options@[j]@)
                        == default_terminal_options()[j],
            decreases 10 - k,
        {
            let option = text_bytes(options[k]);
            let ghost before = argv.deep_view();
            argv.push(option);
            proof {
                lemma_bytes_deep_view(option);
                assert(argv.deep_view() =~= before.push(default_terminal_options()[k as int]));
                assert(default_terminal_options().take(k + 1) =~= default_terminal_options().take(
                    k as int,
                ).push(default_terminal_options()[k as int]));
            }
            k = k + 1;
        }
        assert(default_terminal_options().take(10) =~= default_terminal_options());
    }
    argv
}

/// The shell option puts the user's command line, word for word, after the
/// shell and `-c`: the program started is the shell (where it was found, or
/// its name) and the words follow unchanged.
pub proof fn lemma_shell_keeps_command(run_args: Seq<Seq<u8>>, sh_path: Seq<u8>, resolved: Option<
    Seq<u8>,
>)
    ensures
        ({
            let argv = client_argv_spec(shell_prefixed(run_args, true, Some(sh_path)), resolved);
            &&& argv.len() == run_args.len() + 2
            &&& argv[0] == (match resolved {
                Some(path) => path,
                None => sh_path,
            })
            &&& argv[1] == encode_utf8("-c"@)
            &&& argv.subrange(2, argv.len() as int) == run_args
        }),
{
    let prefixed = shell_prefixed(run_args, true, Some(sh_path));
    let argv = client_argv_spec(prefixed, resolved);
    assert(prefixed[0] == sh_path);
    assert(argv.subrange(2, argv.len() as int) =~= run_args);
}

/// A given command line keeps its length and every word after the first;
/// only the program is replaced by where it was found.
pub proof fn lemma_argv_keeps_arguments(run_args: Seq<Seq<u8>>, resolved: Option<Seq<u8>>)
    requires
        run_args.len() > 0,
    ensures
        client_argv_spec(run_args, resolved).len() == run_args.len(),
        forall|i: int|
            1 <= i < run_args.len() ==> #[trigger] client_argv_spec(run_args, resolved)[i]
                == run_args[i],
        resolved is None ==> client_argv_spec(run_args, resolved) == run_args,
        forall|path: Seq<u8>|
            resolved == Some(path) ==> #[trigger] client_argv_spec(run_args, Some(path))[0] == path,
        program_name(run_args) == run_args[0],
{
    let argv = client_argv_spec(run_args, resolved);
    assert forall|i: int| 1 <= i < run_args.len() implies #[trigger] argv[i] == run_args[i] by {
        assert(argv[i] == run_args.drop_first()[i - 1]);
    }
    if resolved is None {
        assert(argv =~= run_args);
    }
}

/// With no command line the default terminal is looked up and started,
/// with its window options: decorations off, maximized, no padding, half
/// opacity. The program is where it was found, or its name.
pub proof fn lemma_argv_default_terminal(resolved: Option<Seq<u8>>)
    ensures
        program_name(Seq::empty()) == encode_utf8("alacritty"@),
        ({
            let argv = client_argv_spec(Seq::empty(), resolved);
            &&& argv.len() == 11
            &&& argv[0] == (match resolved {
                Some(path) => path,
                None => encode_utf8("alacritty"@),
            })
            &&& argv.subrange(1, 11) == seq![
                encode_utf8("--option"@),
                encode_utf8("window.decorations=\"None\""@),
                encode_utf8("--option"@),
                encode_utf8("window.startup_mode=\"Maximized\""@),
                encode_utf8("--option"@),
                encode_utf8("window.padding.x=0"@),
                encode_utf8("--option"@),
                encode_utf8("window.padding.y=0"@),
                encode_utf8("--option"@),
                encode_utf8("window.opacity=0.5"@),
            ]
        }),
{
    let argv = client_argv_spec(Seq::empty(), resolved);
    assert(argv.subrange(1, 11) =~= default_terminal_options());
}

/// The shell option changes the command line only when it is given and the
/// shell was found; then the shell and `-c` come first and the words follow
/// unchanged.
pub proof fn lemma_shell_option(run_args: Seq<Seq<u8>>, shell: bool, sh_path: Option<Seq<u8>>)
    ensures
        !shell ==> shell_prefixed(run_args, shell, sh_path) == run_args,
        sh_path is None ==> shell_prefixed(run_args, shell, sh_path) == run_args,
        shell && sh_path is Some ==> ({
            let args = shell_prefixed(run_args, shell, sh_path);
            &&& args.len() == run_args.len() + 2
            &&& args[0] == sh_path->0
            &&& args[1] == encode_utf8("-c"@)
            &&& args.subrange(2, args.len() as int) == run_args
        }),
{
    if shell && sh_path is Some {
        let args = shell_prefixed(run_args, shell, sh_path);
        assert(args.subrange(2, args.len() as int) =~= run_args);
    }
}

/// An inherited variable is dropped exactly when its name, decoded lossily
/// and upper-cased, begins with `WAYLAND_DISPLAY`; every other variable is
/// kept.
pub proof fn lemma_keeps_all_but_display(name: Seq<u8>)
    ensures
        keeps_variable(name) == !has_prefix(upper_case(utf8_lossy(name)), "WAYLAND_DISPLAY"@),
{
}

/// `entry` is the entry of the `j`-th variable of `vars`, which is kept.
pub open spec fn entry_of_kept_variable(vars: Seq<(Seq<u8>, Seq<u8>)>, j: int, entry: Seq<u8>) -> bool {
    0 <= j < vars.len() && keeps_variable(vars[j].0) && entry == env_entry(vars[j].0, vars[j].1)
}

/// The `i`-th inherited entry is that of some kept variable.
pub open spec fn entry_has_source(vars: Seq<(Seq<u8>, Seq<u8>)>, i: int) -> bool {
    exists|j: int| #[trigger] entry_of_kept_variable(vars, j, inherited_entries(vars)[i])
}

proof fn lemma_inherited_entries_len(vars: Seq<(Seq<u8>, Seq<u8>)>)
    ensures
        inherited_entries(vars).len() <= vars.len(),
    decreases vars.len(),
{
    if vars.len() > 0 {
        lemma_inherited_entries_len(vars.drop_last());
    }
}

proof fn lemma_entry_has_source(vars: Seq<(Seq<u8>, Seq<u8>)>, i: int)
    requires
        0 <= i < inherited_entries(vars).len(),
    ensures
        exists|j: int| #[trigger] entry_of_kept_variable(vars, j, inherited_entries(vars)[i]),
    decreases vars.len(),
{
    let front = vars.drop_last();
    let rest = inherited_entries(front);
    let last = vars.len() - 1;
    if i < rest.len() {
        lemma_entry_has_source(front, i);
        let j = choose|j: int| #[trigger] entry_of_kept_variable(front, j, rest[i]);
        assert(front[j] == vars[j]);
        assert(entry_of_kept_variable(vars, j, inherited_entries(vars)[i]));
    } else {
        assert(vars[last] == vars.last());
        assert(entry_of_kept_variable(vars, last, inherited_entries(vars)[i]));
    }
}

proof fn lemma_kept_variable_has_entry(vars: Seq<(Seq<u8>, Seq<u8>)>, j: int)
    requires
        0 <= j < vars.len(),
        keeps_variable(vars[j].0),
    ensures
        inherited_entries(vars).contains(env_entry(vars[j].0, vars[j].1)),
    decreases vars.len(),
{
    let front = vars.drop_last();
    let rest = inherited_entries(front);
    let entries = inherited_entries(vars);
    if j < front.len() {
        assert(front[j] == vars[j]);
        lemma_kept_variable_has_entry(front, j);
        let k = choose|k: int| 0 <= k < rest.len() && rest[k] == env_entry(front[j].0, front[j].1);
        assert(entries[k] == rest[k]);
    } else {
        assert(vars[j] == vars.last());
        assert(entries[entries.len() - 1] == env_entry(vars[j].0, vars[j].1));
    }
}

/// The inherited part of a client's environment holds exactly the entries
/// of the variables that are kept: each entry is that of a kept variable,
/// and each kept variable has its entry; there are never more entries than
/// variables.
pub proof fn lemma_inherited_entries_exact(vars: Seq<(Seq<u8>, Seq<u8>)>)
    ensures
        inherited_entries(vars).len() <= vars.len(),
        forall|i: int| 0 <= i < inherited_entries(vars).len() ==> #[trigger] entry_has_source(vars, i),
        forall|j: int|
            0 <= j < vars.len() && keeps_variable(#[trigger] vars[j].0) ==> inherited_entries(
                vars,
            ).contains(env_entry(vars[j].0, vars[j].1)),
{
    lemma_inherited_entries_len(vars);
    assert forall|i: int| 0 <= i < inherited_entries(vars).len() implies #[trigger] entry_has_source(
        vars,
        i,
    ) by {
        lemma_entry_has_source(vars, i);
    }
    assert forall|j: int| 0 <= j < vars.len() && keeps_variable(#[trigger] vars[j].0) implies inherited_entries(
        vars,
    ).contains(env_entry(vars[j].0, vars[j].1)) by {
        lemma_kept_variable_has_entry(vars, j);
    }
}

/// The compositor's socket is always named in a client's environment: it is
/// the entry right after the inherited ones.
pub proof fn lemma_environment_names_socket(vars: Seq<(Seq<u8>, Seq<u8>)>, socket: Seq<char>)
    ensures
        ({
            let entries = inherited_entries(vars) + wayland_entries(socket);
            &&& entries.len() == inherited_entries(vars).len() + 4
            &&& entries[inherited_entries(vars).len() as int] == encode_utf8(
                "WAYLAND_DISPLAY="@ + socket,
            )
            &&& entries[inherited_entries(vars).len() + 1int] == encode_utf8(
                "WINIT_UNIX_BACKEND=wayland"@,
            )
            &&& entries[inherited_entries(vars).len() + 2int] == encode_utf8("GDK_BACKEND=wayland"@)
            &&& entries[inherited_entries(vars).len() + 3int] == encode_utf8(
                "WLR_NO_HARDWARE_CURSORS=1"@,
            )
            &&& entries.subrange(0, inherited_entries(vars).len() as int) == inherited_entries(vars)
        }),
{
    let entries = inherited_entries(vars) + wayland_entries(socket);
    assert(entries.subrange(0, inherited_entries(vars).len() as int) =~= inherited_entries(vars));
}

/// An inherited variable's entry is its name, then `=`, then its value,
/// byte for byte.
pub proof fn lemma_env_entry_layout(name: Seq<u8>, value: Seq<u8>)
    ensures
        env_entry(name, value).len() == name.len() + 1 + value.len(),
        env_entry(name, value).subrange(0, name.len() as int) == name,
        env_entry(name, value)[name.len() as int] == 61u8,
        env_entry(name, value).subrange(name.len() + 1int, env_entry(name, value).len() as int)
            == value,
{
    let entry = env_entry(name, value);
    assert(entry.subrange(0, name.len() as int) =~= name);
    assert(entry.subrange(name.len() + 1int, entry.len() as int) =~= value);
}

} // verus!

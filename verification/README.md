# adlisac

Verified core of Adlisac, a Wayland compositor embedded in a GTK 4 widget.

- `src/` is the library, verified with Verus:
  - `error`: the compositor and event-loop bridge errors and their messages;
  - `client`: how a client process is described (program, arguments,
    `WAYLAND_DISPLAY`) and which program is started when none is given;
  - `launch`: the environment and argument vector of a client started
    through a socket-named compositor widget (raw bytes, as the platform
    passes them), with the shell option;
  - `state`: set-up parameters of the compositor state, its set-up
    failures, window placement and the window list;
  - `widget`: the widget's size request, reported socket name and the
    mapping of toolkit pointer input to Wayland input;
  - `render`: which buffer of a surface is shown and its texture layout;
  - `text`: prefix facts used by the contracts.
- `app/` is the program: the Smithay compositor state and protocol
  handlers, the GTK widget and main loop integration, process spawning and
  command-line parsing. It calls the library for every decision above.
- `tests/` exercise the library on concrete values.

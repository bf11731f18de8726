# jwm

The decisions of a tiling window manager as a verified library: what its
configuration means, which layouts place which windows where, how tags,
monitors and the scrolling strip change, what the control socket accepts and
answers, and what the status bar shows.

Every function of `src/` states in its contract what it returns or changes, and
Verus proves it. What relates several functions is stated as a public proof
function beside them.

- `config/`: the document, its built-in values, key bindings, checks, settings
  that may change while running, and editing the file as text.
- `layout/`, `catalog.rs`, `maximize.rs`: placement of windows.
- `models/`, `workspace.rs`: windows, monitors, tags and the strip.
- `ipc.rs`, `commands.rs`, `ipc_server.rs`: messages, commands, and what the
  server reads and sends.
- `bar/`: the state of the status bar, its delivery and its controls.
- `doctor.rs`: the checks before a start.
- `animation.rs`, `terminals.rs`, `actions.rs` and the small modules below
  them.

Real numbers are carried as bit patterns: `src/` compares and bounds them, and
`app/` holds their arithmetic, together with files, sockets, the environment and
what is written as JSON and TOML.

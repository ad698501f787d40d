# piri

A companion daemon for the niri Wayland compositor: scratchpads, singletons, marks,
sticky windows, window rules, window ordering, empty-workspace commands, input-method
switching and presence reporting, driven by niri's event stream and a small IPC socket.

## Layout

- `src/` — the library: the logic, each function with a contract that Verus proves.
  Each plugin's decisions are functions from plain values (windows, workspaces,
  configuration, the plugin's state) to plain values, with contracts over mathematical
  views (`Seq`, `Map`, spec functions):
  - `events` splits niri's "window opened or changed" event into opened / changed /
    floating-toggled, from the windows it has seen;
  - `window_order` computes the weight order of a workspace's columns and the column moves
    that reach it;
  - `scratchpads`, `singleton`, `mark`, `sticky`, `window_rule`, `empty`, `fcitx5`,
    `sleepy` hold each plugin's state and decisions;
  - `ipc` frames messages, picks the socket path and answers requests no plugin handles;
  - `config`, `tomlx`, `matching`, `workspace`, `named`, `text`, `render` are the shared
    pieces (configuration values, TOML and regex access, workspace filters, named lists,
    character-level text functions, `#rrggbb` colours).
- `tests/` — tests of the library on concrete values.
- `app/` — the program: command line, configuration file, sockets, niri requests and
  actions, HTTP and MPRIS, and the cairo/wayland drawing of the edge indicator.

Calls into the `toml` and `regex` crates go through a few trusted wrappers in
`src/tomlx.rs` and `src/matching.rs`, whose contracts state what those crates document.

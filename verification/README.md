# rshell

The verified core of RShell, a status bar for the niri Wayland compositor.

- `src/` is the library, verified with Verus:
  - `types.rs`: windows and workspaces, and the tables that index them by id;
  - `state.rs`: the bar's model of the compositor, how it follows niri's event
    stream and the replies to its requests, and the laws that hold of it;
  - `socket.rs`: the request lines written to niri's IPC socket, and the
    decoding of the event and reply lines read from it (through `niri_ipc`
    and `serde_json`);
  - `ui.rs`: the workspace indicators and the focused-window label and icon;
  - `tasks.rs`: a list of running tasks that can all be cancelled.
- `app/` is the GTK program around it: the socket connection, the event
  loop, and the widgets.
- `tests/` runs the library on concrete values.

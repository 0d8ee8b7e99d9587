# chameleon

The logic of the Chameleon desktop shell (launcher, dock, panel configuration
and the Hyprland IPC layer), written in Verus with its behaviour stated in
`requires` / `ensures` contracts and proved.

- `src/` is the verified library:
  - `hyprland/` parses the lines of Hyprland's event socket into events and
    builds the requests sent to its command socket;
  - `ipc/` is the smaller event reader of the IPC layer, its reconnecting
    listener, devices and workspaces;
  - `launcher/` turns desktop entries into applications, scores and orders
    items for a query, moves the selection, cycles providers, names cached
    wallpaper previews and builds the commands that set a wallpaper or start
    an application;
  - `config/`, `dock.rs` and `errors.rs` hold the configuration, the dock's
    pinned applications and the shared errors;
  - `text.rs` holds the text operations the rest is written with.
- `tests/` runs the library on concrete values.
- `app/` is the program around it: command line, configuration files,
  sockets, processes and image files.

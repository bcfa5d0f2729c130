# collab

The logic of a real-time collaborative editing plugin for Neovim, written in
Verus: what a session tracks about its peers, files, buffers, cursors and
selections, and how it reacts to what happens on disk, in the editor, and in
the messages of remote peers. Every function in `src/` carries a contract;
Verus proves all of them except those of the few small wrappers that call
std, fastrand and rustls-pki-types, whose contracts are trusted and say in
their doc comments what they claim of the outside code.

## Layout

- `src/` — the verified library:
  - `config`: the server address, read from and written as `{host}:{port}`;
  - `paths`: absolute paths as text (joining, parents, prefixes, `~`);
  - `peers`, `sessions`, `id_maps`, `decorations`, `integrate`, `resume`:
    the state of a session, how remote messages change it, and pausing its
    messages;
  - `event_filter`, `round_robin`: which local events a session acts on, and
    fair polling of the event streams;
  - `fs_actions`, `naming`: mirroring remote changes to the project's tree on
    disk, and new names for nodes whose names clash;
  - `session_flow`, `join_flow`, `progress`, `spinner`: the steps of joining
    and starting sessions, receiving the project, and the notifications
    shown meanwhile;
  - `neovim_env`, `root_search`, `peer_ui`: the editor-facing decisions
    (directories, prompts, project roots, how peers are drawn);
  - `mock`, `numbers`, `text`: the test doubles, integer parsing and
    printing, and string helpers.
- `tests/` — tests of the library on concrete values.
- `app/` — the code around the library that does I/O: configuration through
  serde, the environment, the disk, polling of event streams, and the
  `join` and `start` commands, which make the outside calls the library's
  steps ask for.

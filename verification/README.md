# zar

A two-pane terminal file manager whose decisions are verified with Verus.

- `src/` is the verified library: remote path arithmetic, source references
  and directory listings, key bindings and configuration, the secrets and
  history stores, text editing in one-line fields, the dialogs and the
  application's reaction to every action and mouse event, command parsing,
  the screen geometry used for hit testing, and the plan for connecting to a
  source. Each public function states its result in `ensures`; the `law_*`
  proof functions state properties that span several calls.
- `app/` is the program around it: terminal setup, the event loop, drawing
  with `ratatui`, sessions on the local file system and on FTP/SFTP servers
  through `remotefs`, and reading and writing `config.toml`, `secrets.toml`
  and `history.toml`.
- `tests/` runs the library on concrete values.

The library never touches the file system or the network: an action that
needs outside work returns an `Effect`, the program performs it and reports
back through the method the effect names.

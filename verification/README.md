# zellij_switcher

A session manager plugin for [Zellij](https://zellij.dev): switch, create,
rename, delete and resurrect sessions without leaving Zellij. The plugin's
logic is a Verus library whose behaviour is stated in `requires`/`ensures`
contracts and proved.

## Layout

- `src/` — the verified library.
  - `config.rs` — the plugin options and how a configuration map is read.
  - `session_store.rs` — the unified, name-sorted list of running and dead
    sessions, and the layouts offered for new sessions.
  - `handlers/` — key handling per mode (session list, text prompt, layout
    picker), visibility, and the load-time actions.
  - `render/` — what is drawn: header, scrollable lists, footer; rendering
    yields print commands.
  - `plugin.rs` — the plugin state and its reaction to each host event.
  - `host.rs` — the plain-value form of the host data the logic reads.
  - `text.rs` — string helpers with exact specifications.
- `tests/` — scenario tests of the library.
- `app/main.rs` — the Zellij glue: it converts host events and data into the
  library's types, performs the actions and session-list pulls the library
  asks for, and prints the rendered commands.

## Usage

| Key | Action |
|---|---|
| `j` / `Down` | Move selection down |
| `k` / `Up` | Move selection up |
| `Enter` | Switch to selected session (or resurrect if dead) |
| `1`–`9` | Quick switch to session by index |
| `n` | Create a new session |
| `r` | Rename the current session |
| `d` | Delete/kill the selected session |
| `Esc` | Close the plugin |

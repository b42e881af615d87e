# snap_rat

The state and rules of a terminal interface for browsing and managing
snaps, verified with Verus, and the program around them.

- `src/` — the library: the snap list (sorting, filtering, selection),
  the manage panel and its actions, the channel picker, the connections
  pane, the changes view, the requests sent to snapd and how their answers
  change the state, and the state kept across a restart with elevated
  privileges. Every function carries a contract that Verus proves, except
  two small wrappers in `src/text.rs` around `str::to_lowercase` and
  `String::push`, whose contracts are assumed; `src/laws.rs` holds the
  properties that span several functions.
- `tests/` — tests of the library on concrete values.
- `app/` — the program: the snapd client, the terminal, icons, and the
  restart with elevated privileges. It sends what the library asks for and
  hands the answers back.

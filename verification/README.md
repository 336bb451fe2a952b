# atai_paste

A Windows tray utility that turns `Ctrl+B` into `Ctrl+Shift+V` (paste values)
while Excel is in front, and keeps itself up to date from GitHub releases.

- `src/` — the library, verified with Verus: version numbers, the release
  feed reader, release and download URLs, the update decisions (what the
  feed and the API answer mean, download checks, the order of replacing the
  running executable, what the user is told), the order of a whole update
  run (`src/update_run.rs`: check, ask, download, write, replace, clean up,
  restart), the guard that keeps two runs from overlapping, the key-remap
  rules, and the settings' defaults and check interval. `src/laws.rs`,
  `src/update_run.rs` and `src/guard.rs` hold the properties that tie these
  functions together.
- `app/` — the program: the keyboard hook, `SendInput`, WinHTTP, files,
  dialogs, the tray icon and the startup shortcut. It does the work that
  the library's steps ask for and hands back what came of it.
- `tests/` — tests of the library.

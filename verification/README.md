# ram_purger

The verified core of a Windows memory-purging utility.

- `src/` is the library, verified with Verus: byte-size and number
  rendering (`text`, `units`), the settings and their minimums (`config`),
  memory snapshots (`stats`), the purge plan, its outcome and the retry of
  kernel commands (`purge`), the automatic-purge monitor (`monitor`), the
  release check (`updater`, with `semver` behind trusted wrappers), the
  dashboard state (`dashboard`), console and tray texts (`report`) and the
  tray icon image (`icon`).
- `app/` is the program around it: command line, configuration file,
  Windows API calls, HTTP, the egui dashboard and the tray icon.
- `tests/` exercises the library on concrete values.

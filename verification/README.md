# mutualzz-updater

The bootstrapper of the Mutualzz desktop application: it installs packages,
checks for and applies updates, and launches the application behind a
splash screen.

- `src/` is the verified library (Verus). It holds the decisions: command-line
  install arguments, the on-disk layout under the data root, the Linux package
  flavour from `/etc/os-release`, the update manifest's platform table, version
  comparison, resumable download bookkeeping and checksums, update package
  formats and how they are applied, the update run as a state machine
  (`flow`), and the splash icon masks.
- `app/` is the program around it: filesystem and network work, processes,
  the egui splash window, and the loop that performs the flow's actions.
- `tests/` exercise the library on concrete values.

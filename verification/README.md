# power_monitor

Read-only monitoring of battery, power source and sleep/wake state for
desktop systems, with its rules verified by Verus.

- `src/` — the verified library: the data model (`models`), the change
  rules (`events`), the dispatcher's decisions (`dispatcher`), listener and
  shutdown lifecycle (`lifecycle`), text primitives (`text`), and the
  platform mapping rules (`platform`, with `sysfs`, `macos`, `linux`,
  `windows`).
- `app/` — the Tauri 2 plugin around the library: commands, events,
  threads, and the native calls (UPower/logind over D-Bus, IOKit,
  Win32).
- `tests/` — tests of the library.

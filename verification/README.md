# caffeine_core

The decision logic of Caffeine Desktop (keep-awake plus a capture-proof
blackout overlay for Windows), written in Verus with its contracts proved.

- `src/` — the verified library: settings and their defaults, unlock
  gestures (keys, pointer move, side-to-side shake), the find-the-cursor
  shake and its effect lifecycle, the status OSD layout and placement, the
  blackout overlay lifecycle, the process core as a state machine with the
  actions it requests and its list of status watchers, input routing between unlock and find gestures, the
  idle watcher's auto-blackout rule, keep-awake flags, idle-time arithmetic,
  and Windows-style paths.
- `tests/` — scenario tests over the library.
- `app/` — the Win32 host: raw windows and GDI drawing, floating-point
  effect rendering, global hooks, the keep-awake owner thread, settings
  JSON (serde), COM startup shortcuts, logging, and the GUI boundary. It
  performs the actions the library's core returns, in order.

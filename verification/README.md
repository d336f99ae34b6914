# BrightWheel

A Windows tray app and the `bright` command-line tool for controlling an
external monitor's brightness over DDC/CI, with HDR toggling and startup with
Windows. Over the tray icon, the wheel changes the brightness, a double click
toggles HDR, and a click with left Ctrl held turns all monitors off after five
seconds.

- `src/` is the verified library: brightness conversions, the monitor and HDR
  operations as state machines (each asks for one hardware action and decides
  the next from what happened), wheel acceleration and mouse gestures, the
  tray tooltip and icon tinting, the registry plan for autostart, and the
  command-line grammar. Verus proves every function against its contract,
  except the few small wrappers around standard-library calls (string
  building and decoding, operating-system errors), whose contracts restate
  the standard library's documentation and are trusted.
- `app/` is the Windows side: the Win32 and DDC/CI calls, the message loop and
  mouse hook, and `main`. The executable runs the command-line tool when it is
  started under the name `bright`, and the tray app otherwise.
- `tests/` runs the library on concrete values.

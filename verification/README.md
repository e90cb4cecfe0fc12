# Overlay Stats

A small desktop overlay for Windows that shows CPU and RAM usage. Drag it to
reposition it; F8 toggles the background panel, F9 always-on-top, F10
click-through; right-click the tray icon for Settings and Quit. The settings are
kept in `config.json` next to the executable.

- `src/` is a library verified with Verus. It decides what to do about each
  window message: how the state changes, which commands are given to the window
  system and in which order, and what must be asked before going on.
- `app/` is the program around it: it owns the window, carries out the commands,
  answers the queries, measures the usage and reads and writes the settings.
- `tests/` runs the library on concrete messages and compares its numbers with
  the bindings of the window system.

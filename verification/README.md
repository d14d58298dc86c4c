# thide

The decision logic of THide, a Windows utility that keeps the taskbar hidden
and takes commands from a tray menu and from its command line, written in
Verus with its contracts proved.

- `src/` — the verified library:
  - `ipc` — the hidden window's class name and the window messages that carry
    show, hide, toggle and quit, with their decoding;
  - `cli` — which command the first argument names (in any letter case) and
    what an invocation does about it; the outcome of removing autostart;
  - `appbar` — the AppBar state found at start, the auto-hide state enforced
    over it, and the state restored;
  - `controller` — the running instance's reaction to each command, and when
    its monitor hides the taskbar again;
  - `taskbars` — the scan that picks Explorer's taskbar windows, visibility,
    the `ShowWindow` command, process names;
  - `icon` — reading an ICO file with the `ico` crate, choosing its largest
    image and decoding it;
  - `instance` — the single-instance test;
  - `text` — UTF-16 encoding and decoding, ASCII case, lowercasing;
  - `platform` — the Win32 numbers the decisions use.
- `tests/` — tests of the library on concrete values.
- `app/` — the program: Win32 calls, the tray icon and the event loop, which
  carry out what the library decides.

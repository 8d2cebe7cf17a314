# ime_shift_fix

A Windows utility that keeps the IME mode unchanged while text is selected
with Shift+Click: low-level keyboard and mouse hooks swallow the Shift release
that follows a Shift+left-click and send a replacement release to the clicked
window instead. It runs in the foreground or as a Windows service that starts
the hooks in the logged-in user's session.

Layout:

- `src/` — the decision logic, verified with Verus:
  - `hook.rs`: the Shift+Click guard shared by the two hooks, the replacement
    release, the message loop, and the laws of the guard.
  - `service.rs`: installing, starting, stopping and removing the service, and
    the life cycle it reports to the service control manager.
  - `cli.rs`: command-line modes, help text, and the elevation decisions.
  - `text.rs`: UTF-16 conversion for wide Win32 strings, decimal numerals.
  - `win32.rs`: Win32 constants and `HRESULT` arithmetic.
- `app/` — the program: Win32 calls, hook callbacks, the service entry points.
- `tests/` — tests of the library.

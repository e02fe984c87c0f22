# cliptype

ClipType reads the clipboard only after an explicit trigger and delivers it to
the current destination through bounded native input: typed as Unicode
keystrokes, pasted once under a clipboard-revision guard, or typed as code with
editor-aware bracket navigation.

- `src/` is the verified library: payload limits, normalization, keyboard and
  Code-mode planning, backend selection, the session flow and the resumable
  session machine that makes every decision of an injection session, the
  settings file format, shortcut parsing and validation, the Windows shortcut
  registration transactions, settings application with rollback, and the
  platform-specific encodings and status mappings.
- `tests/` exercises the library on concrete values.
- `app/` is the Windows program around it: the worker thread that performs the
  steps a session asks for, the Win32 clipboard, input, target, registry,
  shortcut and tray adapters, and the settings file on disk.

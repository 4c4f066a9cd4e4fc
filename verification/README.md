# athan

A prayer-times companion: a desktop application (window, tray icon, call
to prayer) and a command-line schedule, built around a library whose logic
is verified with Verus.

- `src/` is the verified library: the clock and its arithmetic, the daily
  schedule (which prayer comes next, how long until it, which call to play
  at each tick), Hijri dates (through `icu_calendar`'s Umm al-Qura
  calendar), the arithmetic Ramadan test, text formatting, the command-line
  table and argument spellings, the settings-field editing rules, the tray
  menu and tooltip, what the Escape key does and which recording a call
  plays, and the validation order of the solar position inputs.
- `tests/` runs the library on concrete values.
- `app/` is the program around it: the window and tray (iced, ksni), audio
  (rodio), configuration files, network location lookup, and the
  astronomical calculations, which work on floating point.

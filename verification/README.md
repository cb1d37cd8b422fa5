# versalogrs

A logger for the console and for daily log files. The library in `src/`
decides, and proves with Verus, everything a logging call produces:

- `logger.rs`: the logger's configuration (`NewVersaLog` and its shorthands),
  the console line and the saved line of each mode (`render`), the record of a
  call (`log` and the level methods), where a saved line goes (`save_log`),
  which desktop notice is due, and the reports of unhandled exceptions and
  panics.
- `files.rs`: the name of a day's log file, the text of an entry, and which old
  log files a clean-up removes.
- `levels.rs`, `text.rs`: the modes, levels, colours and symbols, and the text
  helpers (decimal numbers, removing a substring, the `.log` extension).
- `outside.rs`: the trusted calls into `chrono` (clock and dates), `backtrace`
  (the call place and call stack) and std's upper-casing.
- `laws.rs`: properties of the logger as a whole.

`app/` carries the records out: it prints, runs the background writer of the
log files, shows desktop notices through `notify-rust`, installs the panic hook
and removes old log files.

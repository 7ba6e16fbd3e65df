# otrack

A screen-time tracker for Hyprland: a daemon (`otrackd`) follows the focused
window, logs how long each application keeps the focus to a local SQLite
database, answers status and report requests over a Unix socket, and can
close blacklisted applications during a focus session; a command-line client
(`otrack`) shows status, reports, a Waybar module and a terminal dashboard.

Layout:

- `src/` — the verified library (Verus):
  - `config.rs`: the configuration, its defaults, `~/` expansion of the
    database path, blacklist lookup;
  - `protocol.rs`: the requests and responses exchanged over the socket;
  - `daemon.rs`: the daemon's state machine (window changes, idle checks,
    shutdown, requests, reports), with its laws;
  - `text.rs`: everything the client prints (durations, report lines, status
    lines, Waybar and dashboard labels), with its laws.
- `app/` — the program around it: socket and database I/O, the compositor's
  events, the configuration file, the terminal UI. Run as `otrackd` it is the
  daemon, under any other name the client: install the built program as
  `otrack` and add a link to it named `otrackd`.
- `tests/` — tests of the library on concrete values.

Instants are Unix timestamps in nanoseconds (`i128`). Sessions shorter than
the configured `grace_period` are not logged. The daily report counts the
sessions whose start lies on the current day as SQLite's `date('now')` (UTC)
sees it.

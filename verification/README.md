# wrec

wrec records the screen from the terminal and from a desktop app. A local
daemon owns target listing, permission checks, the job queue and the
recording state; the `wrec` command line and the app talk to it over a
line-based JSON protocol, and a platform helper process does the capturing.

This crate is the part of wrec whose behaviour is stated in contracts and
proved with Verus:

- `settings`, `backend`, `resolution`: recording settings, preset limits,
  overrides, and how a capture target is chosen;
- `args`, `help`: the `wrec` command line and what its help text promises
  of the parser;
- `engine`: the capture engine's own command line, control commands and
  messages;
- `protocol`, `requests`, `jobs`, `control`: the daemon protocol, the
  routing of its requests, the job records, and how clients find and check
  the daemon;
- `recorder`, `helper`: the session bookkeeping of the recorders, the
  helper's command line and target listing, and how its error stream,
  start and stop are read;
- `capture`: frame sizes, bitrates, pixel conversion, audio timing and
  file names of the capture engine;
- `desktop`, `panel`, `form`: the desktop app's decisions as functions
  from state and input to next state and actions;
- `config`, `paths`, `store`, `report`: file locations, history records,
  and the test report printer.

`app/` holds the `wrec` command-line program around the library: argument
collection, the float step of `--duration` (the library holds no floating
point, so it takes how each number read as an `f64` as an argument), the
TCP client for the daemon, JSON encoding and printing.

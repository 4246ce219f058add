# system_overview

A terminal system monitor (CPU, RAM, GPU and disk charts, an error panel and
three tabs), with its state and decisions verified in Verus.

- `src/history.rs`: bounded sample histories and chart points.
- `src/dashboard.rs`: the monitor's state (`App`), its model (`AppView`) and
  how keys and samples change it (`step`, `App::handle_event`).
- `src/monitor.rs`: which events a GPU reading or a disk reading becomes.
- `src/cli.rs`: the command line.
- `src/laws.rs`: properties over any sequence of events.
- `app/`: the program: terminal, sampling threads, drawing, and the
  floating-point conversions.

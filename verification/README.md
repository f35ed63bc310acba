# innoapp_agent

Verified logic of the InnoApp print-capture agent's two Windows programs: the
service that keeps the agent (`node.exe app.mjs`) running as LocalSystem, and the
tray app that shows the agent's state and activates it.

- `src/` — the library, verified with Verus:
  - `timestamp`, `calendar`: reading `YYYY-MM-DDTHH:MM:SS(.mmm)Z` to epoch seconds,
    and the proof that the days-from-civil formula counts calendar days;
  - `clock`: the system clock and decimal writing, taken from std;
  - `connection`, `state`, `tray`, `protocol`: judging the status snapshot and what the
    tray shows;
  - `supervisor`, `service`: the service loop's decisions, files and answers to the
    service manager;
  - `agent_runtime`: activation.
- `tests/` — tests of the library.
- `app/` — the programs around it: the service host (`main.rs`) and the tray app
  (`tray_app`), which do the I/O and hold the serde forms of the library's types.

# codex-automation

A local-first control app that prepares Codex App handoffs for a target
repository: a thin control workspace, app state under the OS data directory,
workers, workorders, a bounded control loop, runner packages and result
recording.

Layout:

- `src/` — the verified library (Verus). Identifier rules, app-state paths,
  result and workorder state rules, worker definitions, repository scan
  classification, Git status parsing, the texts of the control workspace and of
  runner prompts, the decisions of the control loop and heartbeat, and the
  safety rules of `init`, `uninstall` and the setup skill. Public proof
  functions named `law_*` state the properties that hold across calls.
- `app/` — the command line around it: argument parsing, SQLite storage,
  file system and Git process work, JSON and TOML reading and printing.
- `tests/` — tests of the library on concrete values.

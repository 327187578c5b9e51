# adi_cli

The core of `adi`, the command-line manager of the ADI family of tools,
written in Verus: the library's functions carry contracts that Verus
proves, except the few trusted wrappers around outside crates, whose
contracts are believed as stated.

- `src/` — the library: the daemon's protocol framing and service
  bookkeeping (start, stop, restart policy, health summary), plugin
  installation with dependencies, release and update selection, archive
  reading, shell completion scripts, language selection, the interactive
  menu and the decisions behind each command.
- `tests/` — tests of the library on concrete values.
- `app/` — the `adi` program around the library: argument parsing, the
  terminal, files, processes and the network.

Calls into outside crates (`tar`, `flate2`, `zip`, `serde_json`, `toml`,
and a few `std` functions) go through those wrappers; what the crates
read is carried over into plain values (`ArchiveListing`, `JsonValue`,
`TomlValue`) that verified code takes apart.

Tables keyed by name (services, configurations, components, plugin
options) are kept as vectors of (name, value) pairs in which no name
occurs twice (`src/table.rs`), viewed as a finite map. A `HashMap` or
`BTreeMap` keyed by `String` is accepted by Verus, but its specifications
in `vstd` give nothing to prove with for such keys (not even the size
after one insertion), so the contracts could not have stated what these
tables hold.

# preflight

A read-only tool that tells you whether a Linux box can run a Solana
validator, and if it cannot, what is missing and how to fix it.

The checks, the command-line parsing they rest on, the report and the exit
code are written in Verus and proved against their contracts. Reading the
machine (files under `/proc`, `/sys` and `/etc`, `statvfs`, running
`--version` and `--help`), the terminal menu, argument handling and JSON output are
ordinary Rust around that library.

## Layout

- `src/model.rs`: statuses, severities, layers, findings, and the exit code.
- `src/text.rs`: the text operations everything else is specified with
  (lines, words, numbers, joining), each against a spec function.
- `src/argv.rs`: shell words, unit files, wrapper scripts, and how a
  validator's command line is found.
- `src/host.rs`, `src/ctx.rs`: what is known about the machine and the
  validator, gathered into one context that every check reads.
- `src/checks/`: one module per layer (hardware, kernel, filesystem,
  network card, command line, systemd unit, XDP capabilities). Each check
  states its status, observed and expected text, reason, fix commands and
  confirming command as functions of the context.
- `src/registry.rs`: the list of checks with their sources, selection by
  `--only` and `--skip`, and running them. The list is the one
  `--dump-registry` prints; the queue-interrupt and unit-mount checks are
  in the library but not in that list.
- `src/render.rs`: the text and markdown reports and the registry table.
- `src/menu.rs`, `src/privilege.rs`: the profile menu's cursor and the
  validation of names and pids before an elevated read is suggested.
- `app/`: `main`, probing the host, the terminal, and JSON.
- `tests/`: tests against concrete machines and command lines.

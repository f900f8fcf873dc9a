# onecadmin

Administration of 1C:Enterprise clusters from the command line, through the RAS service and the `rac`
utility: it lists infobases, sessions, connections and working processes over many clusters at once,
ends sessions and connections, turns working processes off, and keeps the connections to the clusters
in a YAML file.

- `src/` is the library. Everything in it is verified with Verus: the values and records of the
  domain, filters, sorting and projections, the configuration and its edits, the search for `rac`, its
  arguments, its output and its errors, the decisions of each operation, redaction, the audit line and
  what the command line prints.
- `app/` is the program around it: files, processes, the terminal, YAML and the command line itself.
  Its loops do the outside work that the library asks for next and hand back what came of it.
- `tests/` runs the library against the outside crates it calls.

| Module | What it holds |
| --- | --- |
| `domain` | values, records, field registry, masks, queries, kill plans |
| `infrastructure::config` | the configuration, its validation, its changes and its text |
| `infrastructure::rac` | arguments, processes, output, versions, the choice of `rac` |
| `infrastructure::telemetry` | redaction, audit events, the technical log |
| `infrastructure::windows` | accounts, paths, file protection |
| `application` | normalisation, listings, kills, clusters, credentials, exit codes |
| `cli` | arguments, requests, confirmations, output |

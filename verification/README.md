# mgwconf

Verified core of a configuration client for a remote micro-gateway.

- `src/` is the library, checked by Verus: the gateway's entity models,
  the requests of its configuration API, the network side's decisions
  (which handler serves an event, what it calls, what a health check means),
  the command line client's commands, playbook checks and bookkeeping, and
  the terminal interface's navigation, selection, key handling and screen
  content.
- `app/` is the program around it: option parsing, logging, HTTP calls,
  file output, the terminal and its event threads.
- `tests/` runs the library on concrete values.

# bsk

The verified core of `bsk`, a command line that drives a browser through
a local daemon and a browser extension.

- `src/` is the library, verified with Verus:
  - `text` — trimming, decimal printing and parsing, string joining;
  - `protocol` — the request and reply types of the daemon's tools;
  - `cli` — each command's argument grammar, the request it sends, and
    how it renders the reply, written as step functions from "what has
    happened" to "what to do next";
  - `daemon` — the per-session interrupt markers, the abort registry of
    long-running requests, and the cancel frame sent to a browser.
- `app/` is the `bsk` program around it: clap arguments, the JSON
  encoding of the protocol types, the daemon connection over its local
  socket, printing, the log files, and the abort registry shared
  between tasks.
- `tests/` exercises the library on concrete values.

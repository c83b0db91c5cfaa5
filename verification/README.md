# cups_rs

Printing through CUPS with typed answers and no lost outcomes.

The library in `src/` holds the rules, each with a contract that Verus proves:

- `discovery`: reading `cups-config` and choosing a CUPS generation;
- `compat`: the integer types on which CUPS 2 and CUPS 3 disagree;
- `destination`, `provider::api`, `provider::attribute`, `provider::value`,
  `provider::media`: what a printer offers, with "missing", "empty" and
  "unknown" kept apart;
- `provider::worker`, `provider::call`, `provider::interleaving`: who may use
  the one CUPS thread, the steps of a call on it, and what holds of every
  interleaving of calls;
- `provider::job`: create, submit one PDF, close and cancel, with every outcome
  recorded. Each create, close and cancel is handed out as one task or step,
  and each step of a document is named once; performing what was handed out
  once, and not again, is up to the program that talks to the scheduler;
- `provider::error`: the error taxonomy.

Proof functions whose names begin with `law_` state what holds of the library
as a whole.

`app/` is ordinary Rust around it: the libcups calls, the thread with its lock
and channel, the `CupsProvider` type, and a read-only probe. `tests/` runs the
library.

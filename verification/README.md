# Scree!

Monitoring of periodically scheduled tasks, with a verified core.

- `src/` is the library: ping monitors and their deadlines, alerts, subscriptions to
  notifications of the database, the decisions of the server's background tasks, and what the
  commands print. Every function is verified with Verus, but for the few named below.
- `app/` is the program around it: the command line, the database, the HTTP server and the
  asynchronous tasks. It asks the library what to do, does it, and reports back.
- `tests/` runs the library on concrete values.

Calls into other crates (chrono, humantime, comfy-table, uuid, tokio-postgres, http) that the
library needs stand behind small functions whose doc comments say what is not proved of them.

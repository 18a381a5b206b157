# relay-gitcode-cli

`gd` is a command line client for GitCode. This crate holds its logic as a
library verified with Verus, and the program around it.

- `src/` — the verified library: the command-line grammar and its scanner,
  parse diagnostics, the requests each command sends, request bodies and
  URLs, response summaries, the release migration plan, the version check,
  configuration and environment rules. Every function carries a contract;
  `law_*` proof functions state properties that span several functions.
- `app/` — the `gd` program: reading the command line, the configuration
  file, the system keyring and the environment, sending requests with
  `reqwest`, printing results, help and completion scripts.
- `tests/` — tests of the library on concrete values.

Calls into outside crates (`url`, `serde_json`, `base64`, `reqwest`'s header
names) sit behind small trusted wrappers whose contracts name or state what
the crate returns.

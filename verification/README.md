# shipwright

Shipwright deploys Docker projects to a server: a command-line tool builds,
pushes and starts a project, and an agent on the server redeploys it on
every push, runs smoke tests, keeps snapshots to roll back to, and stores
encrypted secrets.

The decisions of both programs live in a library verified with Verus:

- `src/` — the verified library.  Each public function states in its
  `ensures` what it returns; the data kept by the agent (deployment history,
  secrets and their audit log, snapshots and rollback events) are in-memory
  tables with their invariants.  Laws that relate several functions are
  public proof functions (`lemma_*`).
- `tests/` — tests of the library on concrete values.
- `app/` — the program around the library: command-line parsing, prompts,
  HTTP and WebSocket servers, SSH, Docker, the SQLite file the agent keeps
  its tables in.  `shipwright agent` runs the agent.
- `extras/` — an example project configuration.

Outside crates are called from the library only through the trusted items
marked `#[verifier::external_body]`; each states what it claims of the
crate it calls.

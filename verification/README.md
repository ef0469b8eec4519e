# whale_sdk

The client side of an agent daemon: a program opens a connection, creates sessions with
its own tools, starts runs in them, and follows what happens by events that can be taken
up again.

- `src/` holds everything that the client decides, verified with Verus: which request an
  answer belongs to, where an event goes, which tool the daemon means, what a close or a
  lost connection takes down, when a subscription has to catch up. What only the running
  program can hold (a channel, a tool, a task) is named there by a number.
- `app/` is the asynchronous client around it: it owns what the numbers stand for, talks to
  the daemon, performs what a step asks for, and reports what came of it.
- `tests/` runs the library on concrete values.

## Reading the library

Every type with texts has a view, and the state of a connection (`client::ClientState`) is
seen as maps (`client::ClientView`). A step takes that state to the next one and says in its
contract which one that is. What holds of several steps together is stated by public proof
functions at the end of the module that it concerns:

| module | what is shown there |
| --- | --- |
| `agent` | an agent is captured exactly where it binds every name of its definition once |
| `client` | a connection is lost once, and nothing of it survives |
| `connection` | a shutdown ends, and every stage only adds to what it reports |
| `contexts`, `registration` | which tool runs, and that no other one does; a refusal restores the old one |
| `tool_packs` | a pack binds exactly what it declared, and packs close in reverse |
| `incoming`, `requests` | answers and events reach who waits for them, once |
| `hubs`, `stream`, `receiver` | a subscription has no gap and says nothing twice |
| `recovery` | a connection is kept exactly where everyone knows what became of a record |
| `run`, `run_routes` | a run ends once, and keeps its route as long as it needs it |
| `sessions`, `session_build` | a close or a rollback takes exactly what is the session's own; a session registers what its agent captured |

The modules `tables`, `json` and `identity` hold what is taken on trust of the crates
`dashmap`, `serde_json` and `uuid`.

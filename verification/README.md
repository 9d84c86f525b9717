# anda_brain

Long-term memory for agents, as a verified library with a thin service around it.

`src/` holds the decisions: what a memory diagnostic may conclude, which Watches and
wakes a scan looks at, when an action is taken, asked about, put off or dropped, what
a recall may spend and deliver, and which conversation is formed next. Every function
there has a contract, and Verus proves it. Work that has to ask the outside world is a
machine: it says what it wants to know next, and takes the answer over in one step
whose effect is stated exactly.

| Module | What it decides |
| --- | --- |
| `action` | the work of a wake: reading, deciding, preparing, committing, dispatching |
| `assess` | what a recall cited, and what a probe observed |
| `attention` | the directory of spaces, their scans, and the semantic evaluator |
| `cli` | settings of the service |
| `cognitive` | which runtime operation a tool call may run |
| `formation` | the queue of conversations and the attempts to form them |
| `prompts` | prompts with host and instance policies |
| `recall` | recalls in prose, and recalls within a budget |
| `json`, `kip`, `nexus`, `runtime`, `spelling`, `tally`, `text`, `wake`, `walk` | what the others are built on |

Public proof functions state what holds across calls: that nothing is dispatched
twice on a guess, that silence is never taken for consent, that a scan acknowledges
only what it saw, that a recall stays within its budget, and more.

`app/` is ordinary Rust: the command line, HTTP, the object store, and one loop per
machine that carries out what the machine asks for. `tests/` runs the library against
the real outside crates.

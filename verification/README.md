# chimera

CHIMERA is an orchestration platform for evidence-driven code operations:
an agent loop that drives an OpenAI-compatible model through built-in
tools, a harness that decomposes objectives and assigns creatures to the
tasks, in-memory and file-backed stores, and a terminal chat.

The crate is written in Verus. Every function in `src/` carries a contract
that Verus proves; the calls into outside crates (serde_json, uuid, chrono,
regex, globset, unicode-width) go through small trusted wrappers whose
contracts are stated next to them.

## Layout

- `src/` — the verified library
  - `cli`, `commands` — the command-line grammar, as a parser with an exact
    contract, and what each command prints or asks the program to do
  - `agent`, `llm`, `stream` — the agent loop as a state machine, the chat
    messages, and the decoding of a streamed answer (event-stream framing
    and tool-call accumulation)
  - `tools`, `handlers` — the built-in tools: routing, argument planning,
    edits, output cutting, grep and glob matching, `git status` parsing
  - `harness`, `creatures` — objective decomposition and creature assignment
  - `input`, `message`, `runner`, `status`, `help`, `dashboard`, `views`,
    `theme` — the state of the terminal chat and dashboard, and the styled
    lines they draw
  - `session`, `trace`, `memory`, `pack`, `skill`, `scheduler`, `comms`,
    `mobile`, `mcp`, `shell`, `sandbox`, `browser`, `eval`, `stubs` — the
    stores and subsystems, with their laws (what a read gives back of a
    write, what a removal leaves)
  - `config`, `report`, `text`, `outside` — configuration, printed lines,
    text helpers, and the outside values the library carries
- `tests/` — the tests, run against the compiled library
- `app/` — the `chimera` program: environment and files, HTTP, processes,
  and the terminal, around the library

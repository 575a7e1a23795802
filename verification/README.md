# persona-spirit

The psyche-to-mind interface component: a daemon that captures intent
records (decisions, principles, corrections, clarifications, constraints),
answers observations of them, and hands its store over to the next version
of itself.

This crate is written in Verus. Every function under `src/` carries a
contract that the verifier proves.

## Layout

- `src/record.rs`, `src/store.rs`, `src/catalog.rs`: the record vocabulary,
  the record store (identifier minting, queries, certainty changes,
  removal-candidate collection) and the topic catalog. The store is held in
  memory: it opens empty and nothing here writes it to disk.
- `src/migration.rs`: moving records between schema versions, keeping or
  re-minting identifiers.
- `src/handover.rs`: the upgrade handover state machine.
- `src/actors/`: each actor plane as its state and its per-message
  decision, the dispatch phase's routing and the execution of commands
  over the planes, and the ordinary channel's vocabulary.
- `src/observation.rs`: commands and effects and their projection to the
  universal observation labels.
- `src/daemon.rs`, `src/runtime.rs`, `src/policy.rs`, `src/clock.rs`: the
  daemon configuration, the command-line client's decisions, the policy
  plane and the daemon clock.
- `src/schema_driven/`, `src/schema_poc/`: the schema-driven actor engines
  and the proof-of-concept daemon built on them.
- `app/`: the edge that the library leaves to the process: command line,
  environment, system clock, files, the version-marker file and the actor
  host.
- `tests/`: tests of the library from outside.

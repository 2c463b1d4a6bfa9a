# flare_orchestrator

The decision logic of an instant-messaging orchestrator, written in Verus
and proved against its contracts: how a message or an event fans out to
storage and push, who receives it, which operations (recall, edit, delete,
read, reactions, pins, marks) are allowed and what events they publish,
how call signals are enriched through the capability service and turned
into notices, how conversations are ensured, and how the per-user sync
index is chunked, diffed and compensated.

## Layout

- `src/` — the verified library. Each module states its behaviour in
  `requires`/`ensures` over spec functions; the laws that span functions
  are public proof functions (for example the fan-out ordering lemmas in
  `fanout.rs`, the frame round trip in `main_payload.rs` and the merge
  laws in `validation.rs`). Calls into `chrono`, `uuid` and `serde_json`
  go through a few small trusted wrappers whose doc comments say what is
  assumed.
- `tests/` — tests of the library on concrete values.
- `app/` — the I/O around the library: the Redis-backed sync index and
  compensation store, the capability round trips, and the drivers of the
  fan-out state machines.

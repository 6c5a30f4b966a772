# hace_brain_runtime

The Zeus coordinator of the HACE brain runtime, verified with Verus.

- `src/lib.rs`: request, outcome and configuration types; `ZeusRouter`, which
  selects a compute engine (CE) from a request's complexity and size, the
  configured mode and the CEs registered, and falls back to a registered CE;
  the routing laws.
- `src/bridges/`: the Hacedle and Hacetral bridges behind `RuntimeBridge`.
- `src/dispatcher.rs`, `src/router.rs`: choice of bridge or runtime by provider.
- `src/prompt/`: conversation context and ChatML prompt assembly.
- `src/context.rs`, `src/executor.rs`, `src/outcome.rs`, `src/planner.rs`,
  `src/session.rs`, `src/text.rs`: the smaller runtime pieces.
- `app/`: the asynchronous coordinator that awaits the CEs chosen by
  `ZeusRouter`, and the caller-facing copies of types with `f32` and serde
  fields.

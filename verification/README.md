# wintf

The core logic of a Windows UI toolkit built on an ECS (`bevy_ecs`) and a
flexbox layout engine (`taffy`), written in Verus and proved against its
contracts.

- `src/` is the verified library: pointer input buffers, the tunnel/bubble
  visiting order of routed events, the window-drag state machine and the
  accumulator that carries its results between threads, application window
  bookkeeping, graphics re-initialisation generations, surface and monitor
  reconciliation plans, and the two-way mapping between entities and layout
  nodes. `src/outside.rs` and the top of `src/ecs/layout/layout_tree.rs`
  hold the few trusted declarations of outside types and calls.
- `tests/` runs the library on concrete values.
- `app/` is the unverified shell around it: Win32 and COM calls, ECS systems
  and components with outside derives, and floating-point layout.

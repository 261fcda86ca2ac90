# spatialos_sdk

The logic of a SpatialOS worker SDK, verified with Verus.

`src/` is the verified library:

- `ptr` — a pointer, held by its address, that can only be read through a
  mutable reference.
- `worker` — entity and request IDs, authority, and the connection status
  codes (`mod.rs`, `connection.rs`); the ops SpatialOS delivers and the
  decoding of their type and status codes (`op.rs`); the local view of the
  world that takes those ops (`view.rs`); entities and the entity builder
  (`entity.rs`, `entity_builder.rs`); schema errors and the total order on
  floating-point values held by their bit patterns (`schema.rs`,
  `schema/float_ord.rs`); logging levels, categories and logsinks, the
  connection parameters and their builders (`parameters.rs`), command
  parameters and world command requests, locator requests, snapshot errors,
  the poll decisions of worker futures, and decimal rendering for messages.

`app/` holds what works with floating-point values (metrics, `FloatOrd` over
`f32`/`f64`, positions), with type-erased pointers (user handles) or with
threads (the `Future` that runs a blocking C API call and asks the library's
`poll_step` what each poll does), on top of the library. `tests/` exercises the library from outside.

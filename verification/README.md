# nature

The routing and task-flow decisions of the Nature data-flow engine, verified
with Verus.

- `src/model.rs`, `src/error.rs`: the data the engine moves (instances, raw
  tasks, conversion and store tasks, carriers) and its errors.
- `src/route.rs`: which relations an instance is routed along, and the
  routing and delivery flows.
- `src/task_store.rs`: how store tasks are built.
- `src/inner_controller.rs`: the flows for tasks coming out of the engine's
  channels (store, stored, convert, received, parallel, serial).
- `src/serial.rs`: serial batches and the virtual instance that reports on them.
- `src/flow.rs`: the effects a flow asks for and the replies it takes.

Every flow is a state machine: starting it gives the first command; each
reply to an awaited effect gives the next one, until a command finishes the
flow. `app/` performs the effects against the outside world.

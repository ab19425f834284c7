# jumpy

The rules of a 2D platform game as a verified library, and the host that carries them out.

- `src/` holds the rules: kinematic bodies and their update (`kinematics`, `body_update`,
  `kinematic_frame`), how bodies join the physics (`physics`), the sproinger element (`sproinger`),
  the network layer (`networking`, `net_id`, `wire`) and the map select page (`map_select`,
  `map_select_page`). `ecs` and `session` say what the ECS and the sessions of the engine do.
  What holds of whole runs is stated and proved in `body_laws`, `map_select_laws` and beside the
  functions.
- `app/` is ordinary Rust around it: floating-point arithmetic, the collision engine, the transport
  and the user interface. It performs the steps that the rules return and hands the outcome back.
- `tests/` runs the library on concrete values.

Numbers in floating point go through the rules as bit patterns. Where a rule depends on the outcome
of a computation or a comparison, it asks the host for it.

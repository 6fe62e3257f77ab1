# postflop_solver

The verified front end of a heads-up postflop solver's game resource.

- `src/action.rs`: the actions callers see and the order they are listed in.
- `src/tree.rs`: the values the solver's game tree reports about a node.
- `src/wit.rs`: the values handed across the component interface.
- `src/listing.rs`: the stable listing of actions in that order.
- `src/convert.rs`: tree values turned into interface values.
- `src/card.rs`: card indices and their two-character names; flops.
- `src/game.rs`: the game resource over a solver engine, its configuration,
  and the decisions taken between the engine's answers.
- `app/lib.rs`: the interface's resource over any engine that implements its
  `SolverEngine` trait (no engine is part of this crate), with the
  floating-point queries (ranges, equities) and the solving loop.

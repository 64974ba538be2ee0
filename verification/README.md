# pumpkin_plugins

The Pumpkin server example plugins (hello world, a custom `/greet` command,
event listeners) and three minigames (Spleef, Sumo, TNT Run), with their game
logic proved against its contracts.

- `src/` is the library, with its proofs: the player rosters (`lobby`), arena blocks
  and floor rebuilding (`arena`), plugin descriptions (`plugin`), one module per
  plugin with its session state machine, and the laws the games keep (joining
  is idempotent, leaving undoes joining, an ended round has at most its winner
  left, rebuilding sets exactly the floor, a block decays once at a time).
- `app/` connects the library to the Pumpkin plugin API: commands, event
  listeners, messages, teleports and block updates. Floating-point positions
  and heights stay there; the library receives whole block coordinates and the
  outcome of each height comparison.
- `tests/` runs the library on concrete games.

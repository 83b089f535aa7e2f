# bitcraft

The decision logic of a BitCraft game server (region and global modules),
as a library verified with Verus.

- `src/` holds the rules: quest chains and stages, quest drops, chat
  posting, claim renaming and supply purchases, empire founding, ranks and
  treasury withdrawals, region assignment of new players, building
  placement, equipment presets, gated features, inter-module message
  admission, and the checks and names behind the server's attribute macros.
  Each public function states in its contract what it answers for every
  input; laws that span several calls stand as public proof functions.
  The library takes what a reducer reads from the database as plain values
  and hands back the answer and the records to write; the reducers
  themselves, with their database access, belong to the server that uses
  it.
- `app/` holds what the verifier does not see: the attribute macros' token
  handling and code generation (`syn`, `quote`; the generated gate calls the
  library's verdict), the database rows with their `spacetimedb` table
  attributes, and the arithmetic done in floating point.
- `tests/` runs the library on concrete cases.

# espresso-node

Verified decision logic of an Espresso node, written in Verus.

- `src/membership.rs` — epoch memberships and the coordinator's lookups of
  (randomized) stake tables: when a membership is handed out, when a catchup
  is already running and when one must be started.
- `src/catchup.rs` — the catchup of a membership to an epoch, as a machine
  driven by the runtime (action out, event in), and the seed from which a
  DRB result is computed.
- `src/registry.rs` — the registry of catchups in progress.
- `src/amount.rs` — 256-bit token amounts.
- `src/bridge.rs` — the fee bridge: deposit limits, receipts, waiting for
  Espresso to finalize the deposit, and the balance lookups.
- `src/options.rs` — the marketplace solver's options.

`app/` holds the async runtime around the library (locks, channels, tasks,
network calls, command-line parsing). It carries out what the library
decides; beyond that it only skips reads whose answers the library's laws
show cannot change the decision (the registry when the stake table is there,
both when there is no epoch).

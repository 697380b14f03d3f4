# orderflow_execution

A verified execution and order-management foundation: typed order requests,
FIX-style order state transitions, pre-trade risk gates, a framed
write-ahead log, parent/child execution algorithms, and the FIX bridge that
maps canonical requests and reports to FIX fields. Every function carries a
`requires`/`ensures` contract proved by Verus.

## Layout

- `src/ids.rs`, `src/orders.rs`, `src/risk.rs`, `src/wal.rs`: identifiers,
  orders and their state machine, the risk gate, and WAL record framing,
  checksums and replay cursors.
- `src/algo_*.rs`: parent orders and progress, algorithm risk policy,
  checkpoints and recovery, simulation, TCA metrics, configuration, and the
  planners (TWAP, POV, VWAP, iceberg, passive queue, smart order routing,
  liquidity seeking, sweep, implementation shortfall, basket, spread,
  market making) with deterministic replay.
- `src/fix_*.rs`: FIX field model, value parsing and formatting, report and
  request mapping, the standard application profile, the adapter shell,
  live-adapter hooks and bookkeeping (working orders, inbound sequencing and
  gap frames, resend answers), the certification inventory, harness and
  transcript assertions, and a scripted counterparty transport.
- `src/text.rs`, `src/arith.rs`: number rendering and saturating
  arithmetic shared by the modules above.

The transport-driving live adapter (the type that parses inbound frames
through a FIX session engine, journals outbound frames and answers resend
requests on the wire, with its configuration and profile trait) is not
part of this crate: the FIX session engine and execution-adapter trait it
is built on are not available here. What it decides is here as plain
functions over bytes and values: receive-latency accounting, working-order
updates, gap holding, sequence-number parsing and resend planning.

Laws that relate several operations are public proof functions named
`law_*` next to the operations they speak of.

## Building

The crate has no outside dependencies. Verify with Verus on `src/lib.rs`;
the tests under `tests/` are ordinary Rust tests against the compiled
library.

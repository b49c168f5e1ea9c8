# faction

A deterministic state machine for cluster bootstrapping, verified with Verus.

A node is fed the signals it observes (participation and ready signals from peers, its own
local completion, a deadline, membership changes, probes) and answers with outcomes and a
cluster view. It bootstraps once a quorum of distinct peers is ready; a missed deadline is
recorded as `TimedOut` but never ends the bootstrap, and a repeated expiry reports nothing.

Layout of `src/`:

- `faction.rs`, `state.rs`, `states/` (bootstrap states and steps): the bootstrap machine and
  its specification; `laws.rs` proves what it keeps (quorum before conclusion, conclusion is
  terminal, probes and rejected or duplicate signals change nothing, a missed deadline is not
  terminal, ...).
- `cluster_readiness*.rs`, `freshness_policy.rs`, `output_batch.rs`: a two-phase readiness
  machine with freshness checks; `machine*.rs` and `states/phase*.rs`, `states/ready_by_*.rs`:
  the same machine written state by state. `readiness_laws.rs` proves their laws and that the
  two agree.
- `scenario_*.rs`, `cluster_simulation.rs`: drivers that run several nodes and deliver their
  broadcasts.

Each machine tells its observer exactly once per input what happened. An observer that keeps
a record (`keeps_notices`) is specified to append exactly that notice, so the contracts of
`Faction::process`, `ClusterReadiness::apply` and `Machine::apply` state what it receives.

`tests/` runs the scenarios.

// States of the bootstrap machine and the steps they take.
pub mod bootstrapped;
pub mod collecting;
pub mod collecting_step;
pub mod initial;
pub mod join_step;
pub mod local_completion_step;
pub mod pinging;
pub mod pinging_step;
pub mod timed_out;

// Freshness-aware observation helpers.
pub mod bitmap;
pub mod compute;
pub mod compute_output;
pub mod confirmed_set;
pub mod helpers;
pub mod observed_step;

// States of the state-by-state readiness machine.
pub mod phase1;
pub mod phase2;
pub mod ready_by_deadline;
pub mod ready_by_quorum;

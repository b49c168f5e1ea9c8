//! A deterministic state machine for cluster bootstrapping: fed the signals a node observes,
//! it answers whether the cluster is ready to proceed.
//!
//! A node pings its peers (`Initial` → `Pinging`), completes its own participation and
//! collects ready signals (`Collecting`), and bootstraps once a quorum of distinct peers is
//! ready (`Bootstrapped`, the only terminal state). A missed deadline is recorded and shown
//! as `TimedOut`, but the node stays receptive and can still bootstrap.
//!
//! Besides the bootstrap machine ([`faction::Faction`]), the crate holds a two-phase readiness
//! machine with freshness checks, written once as a whole ([`cluster_readiness::ClusterReadiness`])
//! and once state by state ([`machine::Machine`]), and scenario drivers that run several nodes.
//! Every operation is specified over spec models; the laws the machines keep are proved in
//! [`laws`] and [`readiness_laws`].

// Shared identifiers.
pub mod types;

pub use types::Freshness;
pub use types::PeerId;

// The bootstrap machine.
pub mod cluster_view;
pub mod cluster_view_builder;
pub mod command;
pub mod conclusion;
pub mod config;
pub mod faction;
pub mod laws;
pub mod members;
pub mod no_op_observer;
pub mod observer;
pub mod outcome;
pub mod peer_state;
pub mod process_result;
pub mod quorum_policy;
pub mod state;
pub mod state_snapshot;
pub mod states;
pub mod transition;

// Scenario drivers.
pub mod cluster_simulation;
pub mod scenario_event;
pub mod scenario_harness;
pub mod scenario_node;
pub mod scenario_trace_entry;

// The two-phase readiness machine.
pub mod cluster_readiness;
pub mod cluster_readiness_config;
pub mod cluster_readiness_input;
pub mod cluster_readiness_observer;
pub mod cluster_readiness_output;
pub mod cluster_readiness_snapshot;
pub mod cluster_readiness_transition;
pub mod freshness_classification;
pub mod freshness_policy;
pub mod no_op_cluster_readiness_observer;
pub mod output_batch;
pub mod readiness_exit_mode;
pub mod readiness_laws;
pub mod readiness_lifecycle_state;

// The readiness machine, state by state.
pub mod machine;
pub mod machine_config;
pub mod machine_input;
pub mod machine_observer;
pub mod machine_output;
pub mod machine_snapshot;
pub mod machine_state;
pub mod machine_transition;
pub mod no_op_machine_observer;

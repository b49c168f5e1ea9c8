use faction::cluster_simulation::ClusterSimulation;
use faction::command::Command;
use faction::config::Config;
use faction::no_op_observer::NoOpObserver;
use faction::outcome::Outcome;
use faction::peer_state::PeerState;
use faction::quorum_policy::QuorumPolicy;
use faction::scenario_event::ScenarioEvent;
use faction::scenario_node::ScenarioNode;
use faction::scenario_trace_entry::ScenarioTraceEntry;

#[test]
fn scenario_node_threads_its_machine_through_commands() {
    let node = ScenarioNode::new(3, Config::new(3, vec![1, 2, 3], QuorumPolicy::new(2)));
    assert_eq!(node.peer_id(), 3);
    assert_eq!(node.config().peer_count(), 3);
    let (node, outputs) = node.process(Command::ReadyObserved { peer_id: 1 });
    assert_eq!(outputs, vec![Outcome::ReadyAccepted { peer_id: 1 }]);
    let (mut node, outputs) = node.process(Command::LocalParticipationCompleted);
    assert_eq!(outputs.len(), 3);
    assert_eq!(node.cluster_view().peer_state(), PeerState::Bootstrapped);
    let (node, outputs) = node.process(Command::DeadlineExpired);
    assert!(outputs.is_empty());
    assert_eq!(node.peer_id(), 3);
}

#[test]
fn scenario_node_with_observer_starts_fresh() {
    let mut node = ScenarioNode::new_with_observer(
        1,
        Config::new(1, vec![1, 2], QuorumPolicy::new(2)),
        Box::new(NoOpObserver),
    );
    assert_eq!(node.cluster_view().peer_state(), PeerState::Fresh);
}

#[test]
fn trace_entry_keeps_what_it_records() {
    let mut node = ScenarioNode::new(1, Config::new(1, vec![1, 2], QuorumPolicy::new(2)));
    let view = node.cluster_view();
    let entry = ScenarioTraceEntry::new(1, Command::Probe, vec![Outcome::BroadcastLocalReady], view.clone());
    assert_eq!(entry.peer_id(), 1);
    assert_eq!(entry.command(), Command::Probe);
    assert_eq!(entry.outputs(), &[Outcome::BroadcastLocalReady]);
    assert_eq!(entry.cluster_view(), view);
    let event = ScenarioEvent::ReadyObserved { target_peer_id: 1, source_peer_id: 2 };
    assert_eq!(event, ScenarioEvent::ReadyObserved { target_peer_id: 1, source_peer_id: 2 });
}

#[test]
fn simulation_delivers_local_readiness_to_every_other_node() {
    let mut sim = ClusterSimulation::new(3, 3);
    sim.complete_local(0);
    assert_eq!(sim.pending_count(), 0);
    for peer in 1..3 {
        assert_eq!(sim.cluster_view(peer).collecting_peers(), &[0]);
        assert_eq!(sim.cluster_view(peer).peer_state(), PeerState::Pinging);
    }
    sim.complete_local(1);
    assert!(!sim.all_exited());
    sim.complete_local(2);
    assert!(sim.all_exited());
}

use faction::outcome::Outcome;
use faction::peer_state::PeerState;
use faction::scenario_harness::ScenarioHarness;

#[derive(Debug, Clone, Copy)]
enum ScenarioOperation {
    Participation { coordinator_index: usize, peer_id: u64 },
    Ready { coordinator_index: usize, peer_id: u64 },
    CompleteLocalParticipation { coordinator_index: usize },
    ExpireDeadline { coordinator_index: usize },
}

/// A small deterministic generator, so that every run checks the same sequences.
struct Lcg(u64);

impl Lcg {
    fn next(&mut self, bound: u64) -> u64 {
        self.0 = self.0.wrapping_mul(6364136223846793005).wrapping_add(1442695040888963407);
        (self.0 >> 33) % bound
    }

    fn operation(&mut self) -> ScenarioOperation {
        let coordinator_index = self.next(5) as usize;
        match self.next(4) {
            0 => ScenarioOperation::Participation { coordinator_index, peer_id: self.next(7) },
            1 => ScenarioOperation::Ready { coordinator_index, peer_id: self.next(7) },
            2 => ScenarioOperation::CompleteLocalParticipation { coordinator_index },
            _ => ScenarioOperation::ExpireDeadline { coordinator_index },
        }
    }
}

fn apply_operation(harness: &mut ScenarioHarness, operation: ScenarioOperation) -> (usize, Vec<Outcome>) {
    match operation {
        ScenarioOperation::Participation { coordinator_index, peer_id } => {
            (coordinator_index, harness.apply_participation(coordinator_index, peer_id))
        }
        ScenarioOperation::Ready { coordinator_index, peer_id } => {
            (coordinator_index, harness.apply_ready(coordinator_index, peer_id))
        }
        ScenarioOperation::CompleteLocalParticipation { coordinator_index } => {
            (coordinator_index, harness.complete_local_participation(coordinator_index))
        }
        ScenarioOperation::ExpireDeadline { coordinator_index } => {
            (coordinator_index, harness.expire_deadline(coordinator_index))
        }
    }
}

fn outputs_contain_duplicate(outputs: &[Outcome]) -> bool {
    outputs.iter().any(|output| {
        matches!(
            output,
            Outcome::DuplicateParticipationIgnored { .. } | Outcome::DuplicateReadyIgnored { .. }
        )
    })
}

#[test]
fn duplicate_signals_across_nodes_never_increase_counts_after_first_accept() {
    for seed in 0..32 {
        let mut generator = Lcg(seed);
        let mut harness = ScenarioHarness::new(vec![0, 1, 2, 3, 4], 4);
        for _ in 0..128 {
            let operation = generator.operation();
            let previous: Vec<_> = (0..5).map(|index| harness.cluster_view(index)).collect();
            let (coordinator_index, outputs) = apply_operation(&mut harness, operation);
            if outputs_contain_duplicate(&outputs) {
                let current = harness.cluster_view(coordinator_index);
                assert_eq!(current, previous[coordinator_index]);
            }
        }
    }
}

#[test]
fn once_a_coordinator_exits_it_never_reopens_under_any_later_signal_sequence() {
    for seed in 0..32 {
        let mut generator = Lcg(seed);
        let mut harness = ScenarioHarness::new(vec![0, 1, 2, 3, 4], 4);
        let mut exited = [false; 5];
        for _ in 0..128 {
            let _ = apply_operation(&mut harness, generator.operation());
            for (index, has_exited) in exited.iter_mut().enumerate() {
                let cluster_view = harness.cluster_view(index);
                if cluster_view.is_concluded() {
                    *has_exited = true;
                    assert_eq!(cluster_view.peer_state(), PeerState::Bootstrapped);
                    assert!(cluster_view.collecting_peers().len() >= 4);
                }
                if *has_exited {
                    assert!(cluster_view.is_concluded());
                }
            }
        }
    }
}

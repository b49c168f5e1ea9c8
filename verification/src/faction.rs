use vstd::prelude::*;

use crate::cluster_view::{ClusterView, ClusterViewModel};
use crate::cluster_view_builder::{built, empty_builder, ClusterViewBuilder};
use crate::command::Command;
use crate::config::{Config, ConfigModel};
use crate::laws::{
    deadline_recorded, faction_inv, law_conclusion_is_terminal, law_deadline_is_not_terminal,
    law_duplicate_signal_is_idempotent, lemma_initial_inv, lemma_process_preserves_inv,
};
use crate::members::Members;
use crate::observer::{Notice, Observer};
use crate::outcome::Outcome;
use crate::peer_state::PeerState;
use crate::process_result::{ProcessResult, ProcessResultModel};
use crate::state::{accepts, admissible, step_outcomes, step_state, view_of, FactionState, StateModel};
use crate::states::initial::Initial;
use crate::transition::Transition;

verus! {

/// A node's bootstrap state machine: feed it commands, read back results.
pub struct Faction {
    observer: Box<dyn Observer>,
    core: FactionCore,
}

/// The configuration, state and view of a node, which always satisfy `faction_inv`.
struct FactionCore {
    config: Config,
    progress: NodeProgress,
}

/// The state a node is in and the view it reports.
struct NodeProgress {
    state: FactionState,
    cluster_view: ClusterView,
}

/// The values a [`Faction`] holds; the observer is not part of them.
pub struct FactionModel {
    pub config: ConfigModel,
    pub state: StateModel,
    pub view: ClusterViewModel,
}

impl View for Faction {
    type V = FactionModel;

    closed spec fn view(&self) -> FactionModel {
        self.core@
    }
}

impl View for FactionCore {
    type V = FactionModel;

    closed spec fn view(&self) -> FactionModel {
        FactionModel { config: self.config@, state: self.progress.state@, view: self.progress.cluster_view@ }
    }
}

/// The node a configuration starts: `Initial` over the configured peers.
pub open spec fn initial_model(config: ConfigModel) -> FactionModel {
    let state = StateModel::Initial { members: config.peers };
    let base = built(
        ClusterViewModel { required_count: config.required_count, members: config.peers, ..empty_builder() },
    );
    FactionModel { config, state, view: view_of(state, base) }
}

/// What processing `command` answers.
pub open spec fn process_result(m: FactionModel, command: Command) -> ProcessResultModel {
    if command is Probe {
        ProcessResultModel::Probed { cluster_view: m.view, admissible: admissible(m.state) }
    } else if !accepts(m.state, command) {
        ProcessResultModel::Rejected { cluster_view: m.view, admissible: admissible(m.state) }
    } else {
        let next = step_state(m.state, command, m.config);
        ProcessResultModel::Accepted {
            cluster_view: view_of(next, m.view),
            admissible: admissible(next),
            outcomes: step_outcomes(m.state, command, m.config),
        }
    }
}

/// What processing `command` tells the observer: the query, the rejection, or the transition
/// from the current view to the new one with the step's outcomes.
pub open spec fn process_notice(m: FactionModel, command: Command) -> Notice {
    match process_result(m, command) {
        ProcessResultModel::Probed { cluster_view, .. } => Notice::Query { command, cluster_view },
        ProcessResultModel::Rejected { cluster_view, admissible } => Notice::Rejection {
            command,
            cluster_view,
            admissible,
        },
        ProcessResultModel::Accepted { cluster_view, outcomes, .. } => Notice::Transition {
            command,
            previous_view: m.view,
            outputs: outcomes,
            new_view: cluster_view,
        },
    }
}

/// The node after processing `command`: a probe or a rejected command changes nothing.
pub open spec fn process_next(m: FactionModel, command: Command) -> FactionModel {
    if command is Probe || !accepts(m.state, command) {
        m
    } else {
        let next = step_state(m.state, command, m.config);
        FactionModel { config: m.config, state: next, view: view_of(next, m.view) }
    }
}

impl FactionCore {
    #[verifier::type_invariant]
    closed spec fn wf(self) -> bool {
        faction_inv(self@)
    }

    /// Takes an accepted command: steps the state and reports the outcomes, the new view and
    /// the new admissible commands.
    fn step(&mut self, command: Command) -> (r: (Vec<Outcome>, ClusterView, Vec<Command>))
        requires
            !(command is Probe),
            accepts(old(self)@.state, command),
        ensures
            final(self)@ == process_next(old(self)@, command),
            r.0@ == step_outcomes(old(self)@.state, command, old(self)@.config),
            r.1@ == final(self)@.view,
            r.2@ == admissible(final(self)@.state),
    {
        proof {
            use_type_invariant(&*self);
            lemma_process_preserves_inv(self@, command);
        }
        let (outputs, state) = self.progress.state.step(command, &self.config);
        let admissible = state.admissible_commands();
        let cluster_view = state.cluster_view(&self.progress.cluster_view);
        let reported = cluster_view.clone();
        self.progress = NodeProgress { state, cluster_view };
        (outputs, reported, admissible)
    }
}

impl Faction {
    pub fn new(config: Config, observer: Box<dyn Observer>) -> (r: Self)
        ensures
            r@ == initial_model(config@),
            faction_inv(r@),
    {
        proof {
            lemma_initial_inv(config@);
        }
        let state = FactionState::Initial(Initial::new(Members::new(vstd::slice::slice_to_vec(config.peers()))));
        let base = ClusterViewBuilder::new()
            .with_required_count(config.required_count())
            .with_members(Members::new(vstd::slice::slice_to_vec(config.peers())))
            .build();
        let cluster_view = state.cluster_view(&base);
        Faction { observer, core: FactionCore { config, progress: NodeProgress { state, cluster_view } } }
    }

    /// Whether this node's observer keeps a record of what it is told.
    pub closed spec fn keeps_notices(&self) -> bool {
        (*self.observer).keeps_notices()
    }

    /// What this node's observer has been told, where it keeps a record.
    pub closed spec fn notices(&self) -> Seq<Notice> {
        (*self.observer).notices()
    }

    /// Processes one command. The observer is told exactly once: of the query, of the
    /// rejection, or of the transition. A concluded node never reopens, a missed deadline is
    /// recorded without ending the bootstrap, and a duplicate signal changes nothing.
    pub fn process(&mut self, command: Command) -> (r: ProcessResult)
        ensures
            r@ == process_result(old(self)@, command),
            final(self)@ == process_next(old(self)@, command),
            faction_inv(old(self)@),
            faction_inv(final(self)@),
            old(self).keeps_notices() ==> final(self).keeps_notices() && final(self).notices() == old(
                self,
            ).notices().push(process_notice(old(self)@, command)),
            old(self)@.view.is_concluded() ==> {
                &&& final(self)@ == old(self)@
                &&& r@.cluster_view() == old(self)@.view
                &&& (r@ is Accepted <==> command is ParticipationObserved)
                &&& (r@ is Probed <==> command is Probe)
            },
            command is DeadlineExpired && (old(self)@.view.peer_state == PeerState::Pinging
                || old(self)@.view.peer_state == PeerState::Collecting || old(self)@.view.peer_state
                == PeerState::TimedOut) ==> deadline_recorded(old(self)@.view, r@, final(self)@.view),
            (exists|o: Outcome| r@.outcomes().contains(o) && o.is_duplicate()) ==> final(self)@ == old(self)@,
    {
        proof {
            use_type_invariant(&self.core);
            let m = self@;
            lemma_process_preserves_inv(m, command);
            if m.view.is_concluded() {
                law_conclusion_is_terminal(m, command);
            }
            if command is DeadlineExpired && (m.view.peer_state == PeerState::Pinging || m.view.peer_state
                == PeerState::Collecting || m.view.peer_state == PeerState::TimedOut) {
                law_deadline_is_not_terminal(m);
            }
            if exists|o: Outcome| process_result(m, command).outcomes().contains(o) && o.is_duplicate() {
                let o = choose|o: Outcome| process_result(m, command).outcomes().contains(o) && o.is_duplicate();
                law_duplicate_signal_is_idempotent(m, command, o);
            }
        }
        if let Command::Probe = command {
            let cluster_view = self.core.progress.cluster_view.clone();
            let admissible = self.core.progress.state.admissible_commands();
            self.observer.observe_query(command, cluster_view.clone());
            return ProcessResult::Probed { cluster_view, admissible };
        }
        if !self.core.progress.state.accept(&command) {
            let cluster_view = self.core.progress.cluster_view.clone();
            let admissible = self.core.progress.state.admissible_commands();
            self.observer.observe_rejection(command, cluster_view.clone(), copy_commands(&admissible));
            return ProcessResult::Rejected { cluster_view, admissible };
        }
        let previous_cluster_view = self.core.progress.cluster_view.clone();
        let (outputs, new_cluster_view, admissible) = self.core.step(command);
        let transition = Transition::new(
            previous_cluster_view,
            vstd::slice::slice_to_vec(outputs.as_slice()),
            new_cluster_view.clone(),
        );
        self.observer.observe(command, transition);
        ProcessResult::Accepted { cluster_view: new_cluster_view, admissible, outcomes: outputs }
    }

    pub fn config(&self) -> (r: &Config)
        ensures
            r@ == self@.config,
            faction_inv(self@),
    {
        proof {
            use_type_invariant(&self.core);
        }
        &self.core.config
    }
}

fn copy_commands(v: &Vec<Command>) -> (r: Vec<Command>)
    ensures
        r@ == v@,
{
    vstd::slice::slice_to_vec(v.as_slice())
}

} // verus!

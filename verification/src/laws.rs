use vstd::prelude::*;

use crate::cluster_view::ClusterViewModel;
use crate::command::Command;
use crate::conclusion::Conclusion;
use crate::config::ConfigModel;
use crate::faction::{initial_model, process_next, process_result, FactionModel};
use crate::outcome::Outcome;
use crate::peer_state::PeerState;
use crate::process_result::ProcessResultModel;
use crate::state::{accepts, admissible, join_members, step_state, view_of, StateModel};
use crate::types::{lemma_with_peer, with_peer, PeerId};

verus! {

/// Every peer in `peers` is a member or the node itself.
pub open spec fn vouched(peers: Seq<PeerId>, members: Seq<PeerId>, config: ConfigModel) -> bool {
    forall|p: PeerId| #[trigger] peers.contains(p) ==> members.contains(p) || p == config.peer_id
}

/// What holds of the values of every state a node can reach.
pub open spec fn state_wf(s: StateModel, config: ConfigModel) -> bool {
    match s {
        StateModel::Initial { .. } => true,
        StateModel::Pinging { members, pinging_peers, collecting_peers, .. } => {
            &&& pinging_peers.no_duplicates()
            &&& collecting_peers.no_duplicates()
            &&& vouched(pinging_peers, members, config)
            &&& vouched(collecting_peers, members, config)
        },
        StateModel::Collecting { members, collecting_peers, pinged_peers, .. } => {
            &&& pinged_peers.no_duplicates()
            &&& collecting_peers.no_duplicates()
            &&& vouched(pinged_peers, members, config)
            &&& vouched(collecting_peers, members, config)
        },
        StateModel::Bootstrapped { members, pinged_peers, collected_peers } => {
            &&& pinged_peers.no_duplicates()
            &&& collected_peers.no_duplicates()
            &&& vouched(pinged_peers, members, config)
            &&& vouched(collected_peers, members, config)
            &&& collected_peers.len() >= config.required_count
        },
        StateModel::TimedOut { .. } => false,
    }
}

/// The invariant of a node: its state is well formed (no step leads to `TimedOut`), a node
/// that has not started has missed no deadline, and its view is the one its state reports.
pub open spec fn faction_inv(m: FactionModel) -> bool {
    &&& state_wf(m.state, m.config)
    &&& (m.state is Initial ==> !m.view.deadline_missed)
    &&& m.view == view_of(m.state, m.view)
    &&& m.view.required_count == m.config.required_count
}

/// Reporting a state's view twice gives the view reported once.
pub proof fn lemma_view_of_idempotent(s: StateModel, v: ClusterViewModel)
    ensures
        view_of(s, view_of(s, v)) == view_of(s, v),
{
}

/// A membership command only ever adds members.
pub proof fn lemma_join_members_grows(members: Seq<PeerId>, command: Command)
    ensures
        forall|p: PeerId| members.contains(p) ==> #[trigger] join_members(members, command).contains(p),
{
    if let Command::JoinApproved { peer_id } = command {
        lemma_with_peer(members, peer_id);
    }
}

proof fn lemma_vouched_join(peers: Seq<PeerId>, members: Seq<PeerId>, command: Command, config: ConfigModel)
    requires
        vouched(peers, members, config),
    ensures
        vouched(peers, join_members(members, command), config),
{
    lemma_join_members_grows(members, command);
}

proof fn lemma_vouched_add(peers: Seq<PeerId>, members: Seq<PeerId>, peer: PeerId, config: ConfigModel)
    requires
        vouched(peers, members, config),
        members.contains(peer) || peer == config.peer_id,
    ensures
        vouched(with_peer(peers, peer), members, config),
{
    lemma_with_peer(peers, peer);
}

proof fn lemma_pinging_step_wf(
    members: Seq<PeerId>,
    pinging_peers: Seq<PeerId>,
    collecting_peers: Seq<PeerId>,
    deadline_missed: bool,
    command: Command,
    config: ConfigModel,
)
    requires
        state_wf(StateModel::Pinging { members, pinging_peers, collecting_peers, deadline_missed }, config),
        !(command is Probe),
    ensures
        state_wf(
            step_state(
                StateModel::Pinging { members, pinging_peers, collecting_peers, deadline_missed },
                command,
                config,
            ),
            config,
        ),
{
    match command {
        Command::ParticipationObserved { peer_id } => {
            if members.contains(peer_id) {
                lemma_with_peer(pinging_peers, peer_id);
                lemma_vouched_add(pinging_peers, members, peer_id, config);
            }
        },
        Command::ReadyObserved { peer_id } => {
            if members.contains(peer_id) {
                lemma_with_peer(collecting_peers, peer_id);
                lemma_vouched_add(collecting_peers, members, peer_id, config);
            }
        },
        Command::LocalParticipationCompleted => {
            lemma_with_peer(collecting_peers, config.peer_id);
            lemma_vouched_add(collecting_peers, members, config.peer_id, config);
        },
        Command::DeadlineExpired => {},
        _ => {
            lemma_vouched_join(pinging_peers, members, command, config);
            lemma_vouched_join(collecting_peers, members, command, config);
        },
    }
}

/// Every step from a well-formed state reaches a well-formed state.
pub proof fn lemma_step_wf(s: StateModel, command: Command, config: ConfigModel)
    requires
        state_wf(s, config),
        accepts(s, command),
    ensures
        state_wf(step_state(s, command, config), config),
{
    match s {
        StateModel::Initial { members } => {
            if !command.is_join() {
                assert(vouched(Seq::empty(), members, config));
                lemma_pinging_step_wf(members, Seq::empty(), Seq::empty(), false, command, config);
            }
        },
        StateModel::Pinging { members, pinging_peers, collecting_peers, deadline_missed } => {
            lemma_pinging_step_wf(members, pinging_peers, collecting_peers, deadline_missed, command, config);
        },
        StateModel::Collecting { members, collecting_peers, pinged_peers, deadline_missed } => {
            match command {
                Command::ReadyObserved { peer_id } => {
                    lemma_with_peer(collecting_peers, peer_id);
                    if members.contains(peer_id) {
                        lemma_vouched_add(collecting_peers, members, peer_id, config);
                    }
                    assert(!collecting_peers.contains(peer_id) ==> with_peer(collecting_peers, peer_id)
                        == collecting_peers.push(peer_id));
                },
                Command::DeadlineExpired => {},
                _ => {
                    lemma_vouched_join(pinged_peers, members, command, config);
                    lemma_vouched_join(collecting_peers, members, command, config);
                },
            }
        },
        _ => {},
    }
}

/// A fresh node satisfies the invariant.
pub proof fn lemma_initial_inv(config: ConfigModel)
    ensures
        faction_inv(initial_model(config)),
{
    let m = initial_model(config);
    lemma_view_of_idempotent(m.state, m.view);
}

/// Processing any command keeps the invariant: every reachable node satisfies it.
pub proof fn lemma_process_preserves_inv(m: FactionModel, command: Command)
    requires
        faction_inv(m),
    ensures
        faction_inv(process_next(m, command)),
{
    if !(command is Probe) && accepts(m.state, command) {
        lemma_step_wf(m.state, command, m.config);
        let next = step_state(m.state, command, m.config);
        lemma_view_of_idempotent(next, m.view);
    }
}

/// Probing is read-only: it reports the current view and the admissible commands and changes nothing.
pub proof fn law_probe_is_read_only(m: FactionModel)
    ensures
        process_next(m, Command::Probe) == m,
        process_result(m, Command::Probe) == (ProcessResultModel::Probed {
            cluster_view: m.view,
            admissible: admissible(m.state),
        }),
{
}

/// A command the current state does not take is rejected and changes nothing.
pub proof fn law_rejection_changes_nothing(m: FactionModel, command: Command)
    requires
        !(command is Probe),
        !accepts(m.state, command),
    ensures
        process_next(m, command) == m,
        process_result(m, command) == (ProcessResultModel::Rejected {
            cluster_view: m.view,
            admissible: admissible(m.state),
        }),
{
}

/// A view reports a conclusion only for a bootstrapped state.
pub proof fn lemma_concluded_view_means_bootstrapped(m: FactionModel)
    requires
        faction_inv(m),
        m.view.is_concluded(),
    ensures
        m.state is Bootstrapped,
{
}

/// Once a node has concluded it never reopens: whatever it is fed, it stays as it is and reports
/// its concluded view; it accepts only participation signals (answering them) and probes, and
/// rejects everything else.
pub proof fn law_conclusion_is_terminal(m: FactionModel, command: Command)
    requires
        faction_inv(m),
        m.view.is_concluded(),
    ensures
        process_next(m, command) == m,
        process_result(m, command).cluster_view() == m.view,
        process_result(m, command) is Accepted <==> command is ParticipationObserved,
        process_result(m, command) is Probed <==> command is Probe,
{
    lemma_concluded_view_means_bootstrapped(m);
}

/// A node concludes only on a quorum: its view then lists at least the required number of
/// distinct ready peers, each a member or the node itself.
pub proof fn law_conclusion_requires_quorum(m: FactionModel)
    requires
        faction_inv(m),
        m.view.is_concluded(),
    ensures
        m.view.collecting_peers.no_duplicates(),
        m.view.collecting_peers.len() >= m.config.required_count,
        vouched(m.view.collecting_peers, m.view.members, m.config),
{
    lemma_concluded_view_means_bootstrapped(m);
}

/// The `Concluded` outcome is reported exactly by the step that bootstraps the node.
pub proof fn law_concluded_outcome_marks_bootstrapping(m: FactionModel, command: Command)
    requires
        faction_inv(m),
    ensures
        process_result(m, command).outcomes().contains(Outcome::Concluded { mode: Conclusion::Bootstrapped })
            <==> (!(m.state is Bootstrapped) && process_next(m, command).state is Bootstrapped),
{
    let outs = process_result(m, command).outcomes();
    let c = Outcome::Concluded { mode: Conclusion::Bootstrapped };
    if !(command is Probe) && accepts(m.state, command) {
        match m.state {
            StateModel::Initial { .. } | StateModel::Pinging { .. } => {
                if command is LocalParticipationCompleted {
                    if outs.len() == 3 {
                        assert(outs[2] == c);
                    }
                } else if outs.len() == 1 {
                    assert(outs[0] != c);
                }
            },
            StateModel::Collecting { .. } => {
                if outs.len() == 2 {
                    assert(outs[1] == c);
                } else if outs.len() == 1 {
                    assert(outs[0] != c);
                }
            },
            _ => {},
        }
    }
}

/// What answering a deadline looks like on a node whose view was `v`, giving result `r` and
/// new view `w`: it is accepted, `w` is the result's view and reports `TimedOut` without
/// concluding, the pinging and collecting peers are kept, ready signals stay admissible, and
/// only the first expiry reports the number of confirmations.
pub open spec fn deadline_recorded(v: ClusterViewModel, r: ProcessResultModel, w: ClusterViewModel) -> bool {
    r matches ProcessResultModel::Accepted { cluster_view, admissible, outcomes } && {
        &&& cluster_view == w
        &&& w.peer_state == PeerState::TimedOut
        &&& w.deadline_missed
        &&& !w.is_concluded()
        &&& w.conclusion() is None
        &&& w.pinging_peers == v.pinging_peers
        &&& w.collecting_peers == v.collecting_peers
        &&& admissible.contains(Command::ReadyObserved { peer_id: 0 })
        &&& outcomes == if v.deadline_missed {
            Seq::empty()
        } else {
            seq![Outcome::DeadlineMissed { confirmed_count: v.collecting_peers.len() as usize }]
        }
    }
}

/// A missed deadline is recorded, not terminal: a node whose view is pinging, collecting or
/// timed out takes `DeadlineExpired` as `deadline_recorded` says, and stays receptive.
pub proof fn law_deadline_is_not_terminal(m: FactionModel)
    requires
        faction_inv(m),
        m.view.peer_state == PeerState::Pinging || m.view.peer_state == PeerState::Collecting
            || m.view.peer_state == PeerState::TimedOut,
    ensures
        accepts(m.state, Command::DeadlineExpired),
        deadline_recorded(
            m.view,
            process_result(m, Command::DeadlineExpired),
            process_next(m, Command::DeadlineExpired).view,
        ),
{
    let next = process_next(m, Command::DeadlineExpired);
    let a = admissible(next.state);
    match next.state {
        StateModel::Pinging { .. } => assert(a[1] == Command::ReadyObserved { peer_id: 0 }),
        _ => assert(a[0] == Command::ReadyObserved { peer_id: 0 }),
    }
}

/// A repeated deadline is idempotent: once a node that has not concluded has missed its
/// deadline, another `DeadlineExpired` reports nothing and changes nothing.
pub proof fn law_repeated_deadline_is_idempotent(m: FactionModel)
    requires
        faction_inv(m),
        m.view.deadline_missed,
        !m.view.is_concluded(),
    ensures
        process_result(m, Command::DeadlineExpired) == (ProcessResultModel::Accepted {
            cluster_view: m.view,
            admissible: admissible(m.state),
            outcomes: Seq::empty(),
        }),
        process_next(m, Command::DeadlineExpired) == m,
{
}

/// After a missed deadline a collecting node still bootstraps once the quorum's last ready
/// signal arrives.
pub proof fn law_bootstraps_after_missed_deadline(
    m: FactionModel,
    members: Seq<PeerId>,
    collecting_peers: Seq<PeerId>,
    pinged_peers: Seq<PeerId>,
    peer_id: PeerId,
)
    requires
        faction_inv(m),
        m.state == (StateModel::Collecting { members, collecting_peers, pinged_peers, deadline_missed: true }),
        members.contains(peer_id),
        !collecting_peers.contains(peer_id),
        collecting_peers.len() + 1 >= m.config.required_count,
    ensures
        process_next(m, Command::ReadyObserved { peer_id }).view.is_concluded(),
        process_next(m, Command::ReadyObserved { peer_id }).view.collecting_peers == collecting_peers.push(peer_id),
{
}

/// A concluded node is never a silent sink: a member still pinging it is answered with an
/// acknowledgement, and the node stays as it is.
pub proof fn law_concluded_node_answers_participation(m: FactionModel, peer_id: PeerId)
    requires
        faction_inv(m),
        m.view.is_concluded(),
        m.view.members.contains(peer_id),
    ensures
        process_result(m, Command::ParticipationObserved { peer_id }).outcomes() == seq![
            Outcome::AcknowledgeRejoin { peer_id },
        ],
        process_next(m, Command::ParticipationObserved { peer_id }) == m,
{
    lemma_concluded_view_means_bootstrapped(m);
}

/// A duplicate signal changes nothing: neither the state nor the reported view.
pub proof fn law_duplicate_signal_is_idempotent(m: FactionModel, command: Command, o: Outcome)
    requires
        faction_inv(m),
        process_result(m, command).outcomes().contains(o),
        o.is_duplicate(),
    ensures
        process_next(m, command) == m,
{
    let outs = process_result(m, command).outcomes();
    let i = outs.index_of(o);
    assert(outs[i] == o);
    if !(command is Probe) && accepts(m.state, command) {
        match m.state {
            StateModel::Initial { members } => {
                assert(false);
            },
            _ => {
                let next = step_state(m.state, command, m.config);
                assert(next == m.state);
            },
        }
    }
}

/// A signal from a non-member changes nothing once the node has left its initial state.
pub proof fn law_non_member_signal_changes_nothing(m: FactionModel, command: Command, peer_id: PeerId)
    requires
        faction_inv(m),
        !(m.state is Initial),
        process_result(m, command).outcomes().contains(Outcome::NonMemberIgnored { peer_id }),
    ensures
        process_next(m, command) == m,
{
    let o = Outcome::NonMemberIgnored { peer_id };
    let outs = process_result(m, command).outcomes();
    let i = outs.index_of(o);
    assert(outs[i] == o);
    if !(command is Probe) && accepts(m.state, command) {
        let next = step_state(m.state, command, m.config);
        assert(next == m.state);
    }
}

/// The admissible commands a state reports are exactly those it accepts, plus `Probe`.
pub proof fn law_admissible_matches_accept(s: StateModel, command: Command)
    ensures
        admissible(s).contains(Command::Probe),
        !(command is Probe) ==> (accepts(s, command) <==> admissible(s).contains(command.kind())),
{
    let a = admissible(s);
    assert(a[a.len() - 1] == Command::Probe);
    let k = command.kind();
    if !(command is Probe) {
        if a.contains(k) {
            let i = a.index_of(k);
            assert(a[i] == k);
        }
        if accepts(s, command) {
            match s {
                StateModel::Initial { .. } => {
                    match command {
                        Command::ParticipationObserved { .. } => assert(a[0] == k),
                        Command::ReadyObserved { .. } => assert(a[1] == k),
                        Command::LocalParticipationCompleted => assert(a[2] == k),
                        Command::JoinRequested { .. } => assert(a[3] == k),
                        Command::JoinApproved { .. } => assert(a[4] == k),
                        _ => assert(a[5] == k),
                    }
                },
                StateModel::Pinging { .. } => {
                    match command {
                        Command::ParticipationObserved { .. } => assert(a[0] == k),
                        Command::ReadyObserved { .. } => assert(a[1] == k),
                        Command::LocalParticipationCompleted => assert(a[2] == k),
                        Command::DeadlineExpired => assert(a[3] == k),
                        Command::JoinRequested { .. } => assert(a[4] == k),
                        Command::JoinApproved { .. } => assert(a[5] == k),
                        _ => assert(a[6] == k),
                    }
                },
                StateModel::Collecting { .. } => {
                    match command {
                        Command::ReadyObserved { .. } => assert(a[0] == k),
                        Command::DeadlineExpired => assert(a[1] == k),
                        Command::JoinRequested { .. } => assert(a[2] == k),
                        Command::JoinApproved { .. } => assert(a[3] == k),
                        _ => assert(a[4] == k),
                    }
                },
                _ => assert(a[0] == k),
            }
        }
    }
}

/// Only an accepted local completion asks for the local readiness to be broadcast.
pub proof fn law_only_local_completion_broadcasts(m: FactionModel, command: Command)
    ensures
        process_result(m, command).outcomes().contains(Outcome::BroadcastLocalReady)
            <==> (command is LocalParticipationCompleted && accepts(m.state, command)),
{
    let outs = process_result(m, command).outcomes();
    let b = Outcome::BroadcastLocalReady;
    if outs.contains(b) {
        let i = outs.index_of(b);
        assert(outs[i] == b);
    }
    if command is LocalParticipationCompleted && accepts(m.state, command) {
        assert(outs[1] == b);
    }
}

/// The node reached by processing `commands` in order.
pub open spec fn replay(m: FactionModel, commands: Seq<Command>) -> FactionModel
    decreases commands.len(),
{
    if commands.len() == 0 {
        m
    } else {
        replay(process_next(m, commands[0]), commands.drop_first())
    }
}

/// Every node reached by processing commands from a node that satisfies the invariant
/// satisfies it too; with [`lemma_initial_inv`], every node started from a configuration does.
pub proof fn lemma_replay_preserves_inv(m: FactionModel, commands: Seq<Command>)
    requires
        faction_inv(m),
    ensures
        faction_inv(replay(m, commands)),
    decreases commands.len(),
{
    if commands.len() > 0 {
        lemma_process_preserves_inv(m, commands[0]);
        lemma_replay_preserves_inv(process_next(m, commands[0]), commands.drop_first());
    }
}

/// What processing `commands` in order answers, one result per command.
pub open spec fn replay_results(m: FactionModel, commands: Seq<Command>) -> Seq<ProcessResultModel>
    decreases commands.len(),
{
    if commands.len() == 0 {
        Seq::empty()
    } else {
        seq![process_result(m, commands[0])] + replay_results(process_next(m, commands[0]), commands.drop_first())
    }
}

/// The machine is deterministic and replayable from its input log: two nodes with the same
/// values fed the same commands answer the same results and end with the same values.
pub proof fn law_replay_is_deterministic(m1: FactionModel, m2: FactionModel, commands: Seq<Command>)
    requires
        m1 == m2,
    ensures
        replay_results(m1, commands) == replay_results(m2, commands),
        replay(m1, commands) == replay(m2, commands),
{
}

/// `commands` with every probe left out.
pub open spec fn without_probes(commands: Seq<Command>) -> Seq<Command>
    decreases commands.len(),
{
    if commands.len() == 0 {
        commands
    } else if commands[0] is Probe {
        without_probes(commands.drop_first())
    } else {
        seq![commands[0]] + without_probes(commands.drop_first())
    }
}

/// Probes have no side effect: a command sequence leads where it leads with its probes left out.
pub proof fn law_probes_do_not_change_replay(m: FactionModel, commands: Seq<Command>)
    ensures
        replay(m, commands) == replay(m, without_probes(commands)),
    decreases commands.len(),
{
    if commands.len() > 0 {
        let rest = commands.drop_first();
        law_probes_do_not_change_replay(process_next(m, commands[0]), rest);
        if !(commands[0] is Probe) {
            let w = seq![commands[0]] + without_probes(rest);
            assert(w[0] == commands[0]);
            assert(w.drop_first() =~= without_probes(rest));
        } else {
            law_probes_do_not_change_replay(m, rest);
        }
    }
}

/// A missed deadline is never forgotten: whatever a node that has missed its deadline is fed,
/// its view still says so, and as long as it has not concluded it reports `TimedOut`.
pub proof fn law_missed_deadline_is_kept(m: FactionModel, command: Command)
    requires
        faction_inv(m),
        m.view.deadline_missed,
    ensures
        process_next(m, command).view.deadline_missed,
        !process_next(m, command).view.is_concluded() ==> process_next(m, command).view.peer_state
            == PeerState::TimedOut,
{
}

/// A ready signal from a member already among the node's collecting peers is answered with
/// exactly `DuplicateReadyIgnored` and changes nothing, until the node concludes. A ready
/// signal is reported as accepted only for a peer not yet confirmed, which it then confirms.
pub proof fn law_ready_signal_confirms_once(m: FactionModel, peer_id: PeerId)
    requires
        faction_inv(m),
    ensures
        m.view.collecting_peers.contains(peer_id) && m.view.members.contains(peer_id) && !m.view.is_concluded()
            ==> process_result(m, Command::ReadyObserved { peer_id }) == (ProcessResultModel::Accepted {
            cluster_view: m.view,
            admissible: admissible(m.state),
            outcomes: seq![Outcome::DuplicateReadyIgnored { peer_id }],
        }) && process_next(m, Command::ReadyObserved { peer_id }) == m,
        process_result(m, Command::ReadyObserved { peer_id }).outcomes().contains(
            Outcome::ReadyAccepted { peer_id },
        ) ==> {
            &&& !m.view.collecting_peers.contains(peer_id)
            &&& process_next(m, Command::ReadyObserved { peer_id }).view.collecting_peers == m.view.collecting_peers.push(
                peer_id,
            )
        },
{
    let c = Command::ReadyObserved { peer_id };
    let outs = process_result(m, c).outcomes();
    if outs.contains(Outcome::ReadyAccepted { peer_id }) {
        let k = outs.index_of(Outcome::ReadyAccepted { peer_id });
        assert(outs[k] == Outcome::ReadyAccepted { peer_id });
    }
}

/// A node that has not concluded takes every membership command. A join request is answered
/// with exactly `EmitJoinRequest` and a rejection with exactly `JoinDenied`, both changing
/// nothing; an approval admits a peer that is not yet a member (reporting `MemberAdmitted` and
/// adding it to the members) and reports `DuplicateMemberIgnored` for one that is, changing
/// nothing. Only the members change, and only by the admitted peer.
pub proof fn law_membership_commands(m: FactionModel, peer_id: PeerId)
    requires
        faction_inv(m),
        !m.view.is_concluded(),
    ensures
        process_result(m, Command::JoinRequested { peer_id }) == (ProcessResultModel::Accepted {
            cluster_view: m.view,
            admissible: admissible(m.state),
            outcomes: seq![Outcome::EmitJoinRequest { peer_id }],
        }),
        process_next(m, Command::JoinRequested { peer_id }) == m,
        process_result(m, Command::JoinRejected { peer_id }) == (ProcessResultModel::Accepted {
            cluster_view: m.view,
            admissible: admissible(m.state),
            outcomes: seq![Outcome::JoinDenied { peer_id }],
        }),
        process_next(m, Command::JoinRejected { peer_id }) == m,
        m.view.members.contains(peer_id) ==> process_next(m, Command::JoinApproved { peer_id }) == m
            && process_result(m, Command::JoinApproved { peer_id }).outcomes() == seq![
            Outcome::DuplicateMemberIgnored { peer_id },
        ],
        !m.view.members.contains(peer_id) ==> {
            let next = process_next(m, Command::JoinApproved { peer_id });
            &&& process_result(m, Command::JoinApproved { peer_id }).outcomes() == seq![
                Outcome::MemberAdmitted { peer_id },
            ]
            &&& next.view == ClusterViewModel { members: m.view.members.push(peer_id), ..m.view }
            &&& next.config == m.config
        },
{
    let next = process_next(m, Command::JoinApproved { peer_id });
    if !m.view.members.contains(peer_id) {
        assert(next.view =~= ClusterViewModel { members: m.view.members.push(peer_id), ..m.view });
    }
}

/// Confirmations are only ever added: whatever a node is fed, the pinging and collecting peers
/// its view reports after the command begin with those it reported before. Local completion in
/// particular keeps the record of the pinged peers as it is.
pub proof fn law_confirmations_only_grow(m: FactionModel, command: Command)
    requires
        faction_inv(m),
    ensures
        ({
            let before = m.view;
            let after = process_next(m, command).view;
            &&& before.pinging_peers.len() <= after.pinging_peers.len()
            &&& after.pinging_peers.subrange(0, before.pinging_peers.len() as int) == before.pinging_peers
            &&& before.collecting_peers.len() <= after.collecting_peers.len()
            &&& after.collecting_peers.subrange(0, before.collecting_peers.len() as int) == before.collecting_peers
        }),
        process_next(m, Command::LocalParticipationCompleted).view.pinging_peers == m.view.pinging_peers,
{
    let after = process_next(m, command).view;
    assert(after.pinging_peers.subrange(0, m.view.pinging_peers.len() as int) =~= m.view.pinging_peers);
    assert(after.collecting_peers.subrange(0, m.view.collecting_peers.len() as int) =~= m.view.collecting_peers);
}

/// A participation signal is reported as accepted only for a peer not yet seen, which it then
/// records. While pinging, a participation signal from a member already seen is answered with
/// exactly `DuplicateParticipationIgnored` and changes nothing.
pub proof fn law_participation_signal_counts_once(m: FactionModel, peer_id: PeerId)
    requires
        faction_inv(m),
    ensures
        process_result(m, Command::ParticipationObserved { peer_id }).outcomes().contains(
            Outcome::ParticipationAccepted { peer_id },
        ) ==> {
            &&& !m.view.pinging_peers.contains(peer_id)
            &&& process_next(m, Command::ParticipationObserved { peer_id }).view.pinging_peers
                == m.view.pinging_peers.push(peer_id)
        },
        m.state is Pinging && m.view.pinging_peers.contains(peer_id) && m.view.members.contains(peer_id)
            ==> process_result(m, Command::ParticipationObserved { peer_id }) == (ProcessResultModel::Accepted {
            cluster_view: m.view,
            admissible: admissible(m.state),
            outcomes: seq![Outcome::DuplicateParticipationIgnored { peer_id }],
        }) && process_next(m, Command::ParticipationObserved { peer_id }) == m,
{
    let c = Command::ParticipationObserved { peer_id };
    let outs = process_result(m, c).outcomes();
    if outs.contains(Outcome::ParticipationAccepted { peer_id }) {
        let k = outs.index_of(Outcome::ParticipationAccepted { peer_id });
        assert(outs[k] == Outcome::ParticipationAccepted { peer_id });
    }
}

/// Local completion on a node that has not started collecting: the node counts itself among
/// the ready peers, leaves pinging, announces its completion and broadcasts its readiness, and
/// concludes exactly when its ready peers reach the required count, saying so last.
pub proof fn law_local_completion_collects_self(m: FactionModel)
    requires
        faction_inv(m),
        m.state is Initial || m.state is Pinging,
    ensures
        ({
            let r = process_result(m, Command::LocalParticipationCompleted);
            let next = process_next(m, Command::LocalParticipationCompleted).view;
            &&& r is Accepted
            &&& next.collecting_peers.contains(m.config.peer_id)
            &&& forall|p: PeerId| #[trigger] next.collecting_peers.contains(p) <==> (m.view.collecting_peers.contains(p)
                || p == m.config.peer_id)
            &&& next.is_pinging_completed
            &&& next.is_concluded() <==> next.collecting_peers.len() >= m.config.required_count
            &&& r.outcomes() == if next.is_concluded() {
                seq![
                    Outcome::LocalParticipationCompleted,
                    Outcome::BroadcastLocalReady,
                    Outcome::Concluded { mode: Conclusion::Bootstrapped },
                ]
            } else {
                seq![Outcome::LocalParticipationCompleted, Outcome::BroadcastLocalReady]
            }
        }),
{
    match m.state {
        StateModel::Pinging { collecting_peers, .. } => lemma_with_peer(collecting_peers, m.config.peer_id),
        _ => lemma_with_peer(Seq::empty(), m.config.peer_id),
    }
}

} // verus!

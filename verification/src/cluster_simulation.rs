use std::collections::VecDeque;

use vstd::prelude::*;

use crate::cluster_view::ClusterView;
use crate::command::Command;
use crate::conclusion::Conclusion;
use crate::config::Config;
use crate::faction::{initial_model, process_next, process_result, Faction, FactionModel};
use crate::laws::law_only_local_completion_broadcasts;
use crate::no_op_observer::NoOpObserver;
use crate::outcome::Outcome;
use crate::process_result::ProcessResult;
use crate::quorum_policy::QuorumPolicy;
use crate::scenario_harness::{node_config, outcomes_of};
use crate::state::accepts;
use crate::types::{copy_peers, PeerId};

verus! {

/// A whole cluster in one process: every node's broadcasts are delivered to the others.
pub struct ClusterSimulation {
    sim: Simulation,
}

/// The nodes, their peer ids and the queued signals of a simulation.
struct Simulation {
    peers: Vec<Faction>,
    peer_ids: Vec<PeerId>,
    pending: VecDeque<(usize, Command)>,
}

/// The values a [`ClusterSimulation`] holds.
pub struct SimulationModel {
    pub nodes: Seq<FactionModel>,
    pub peer_ids: Seq<PeerId>,
    pub pending: Seq<(usize, Command)>,
}

impl View for ClusterSimulation {
    type V = SimulationModel;

    closed spec fn view(&self) -> SimulationModel {
        self.sim@
    }
}

impl View for Simulation {
    type V = SimulationModel;

    closed spec fn view(&self) -> SimulationModel {
        SimulationModel {
            nodes: self.peers@.map_values(|f: Faction| f@),
            peer_ids: self.peer_ids@,
            pending: self.pending@,
        }
    }
}

/// The peers `0, 1, ..., n - 1`.
pub open spec fn peer_range(n: nat) -> Seq<PeerId> {
    Seq::new(n, |i: int| i as PeerId)
}

/// Queued signals are ready signals addressed to existing nodes.
pub open spec fn pending_wf(pending: Seq<(usize, Command)>, n: nat) -> bool {
    forall|k: int| 0 <= k < pending.len() ==> (#[trigger] pending[k]).0 < n && pending[k].1 is ReadyObserved
}

impl SimulationModel {
    /// One node per peer id, the peer ids being `0..n`, and well-formed queued signals.
    pub open spec fn wf(self) -> bool {
        &&& self.nodes.len() == self.peer_ids.len()
        &&& self.nodes.len() <= usize::MAX
        &&& self.peer_ids == peer_range(self.peer_ids.len())
        &&& pending_wf(self.pending, self.nodes.len())
    }
}

/// The nodes after the queued signals are delivered in order.
pub open spec fn deliver(nodes: Seq<FactionModel>, pending: Seq<(usize, Command)>) -> Seq<FactionModel>
    decreases pending.len(),
{
    if pending.len() == 0 {
        nodes
    } else {
        let target = pending[0].0 as int;
        deliver(nodes.update(target, process_next(nodes[target], pending[0].1)), pending.drop_first())
    }
}

/// The ready signals of `peer_id`, sent from node `source` to every other of the first `n` nodes.
pub open spec fn broadcast_queue(n: nat, source: usize, peer_id: PeerId) -> Seq<(usize, Command)>
    decreases n,
{
    if n == 0 {
        Seq::empty()
    } else {
        let k = (n - 1) as usize;
        let earlier = broadcast_queue((n - 1) as nat, source, peer_id);
        if k == source {
            earlier
        } else {
            earlier.push((k, Command::ReadyObserved { peer_id }))
        }
    }
}

/// A broadcast from node `source` holds one ready signal for every other node, in ascending
/// order of the node: the `i`-th goes to node `i` before the source and to node `i + 1` after
/// it, so the queue has one signal fewer than there are nodes.
pub proof fn lemma_broadcast_queue_shape(n: nat, source: usize, peer_id: PeerId)
    requires
        n <= usize::MAX,
    ensures
        broadcast_queue(n, source, peer_id).len() == if source < n { n - 1 } else { n as int },
        forall|i: int|
            0 <= i < broadcast_queue(n, source, peer_id).len() ==> #[trigger] broadcast_queue(n, source, peer_id)[i]
                == ((if i < source { i } else { i + 1 }) as usize, Command::ReadyObserved { peer_id }),
    decreases n,
{
    if n > 0 {
        lemma_broadcast_queue_shape((n - 1) as nat, source, peer_id);
    }
}

/// Every node processes `command` once.
pub open spec fn apply_each(nodes: Seq<FactionModel>, command: Command) -> Seq<FactionModel> {
    Seq::new(nodes.len(), |i: int| process_next(nodes[i], command))
}

proof fn lemma_broadcast_queue_wf(n: nat, source: usize, peer_id: PeerId)
    ensures
        pending_wf(broadcast_queue(n, source, peer_id), n),
    decreases n,
{
    if n > 0 {
        lemma_broadcast_queue_wf((n - 1) as nat, source, peer_id);
    }
}

/// Delivering two queues one after the other is delivering their concatenation.
proof fn lemma_deliver_append(nodes: Seq<FactionModel>, first: Seq<(usize, Command)>, second: Seq<(usize, Command)>)
    ensures
        deliver(nodes, first + second) == deliver(deliver(nodes, first), second),
    decreases first.len(),
{
    if first.len() > 0 {
        let target = first[0].0 as int;
        let next = nodes.update(target, process_next(nodes[target], first[0].1));
        assert((first + second).drop_first() =~= first.drop_first() + second);
        assert((first + second)[0] == first[0]);
        lemma_deliver_append(next, first.drop_first(), second);
    } else {
        assert(first + second =~= second);
    }
}

/// The nodes after the ready signal of `peer_id` from node `source` reached every other node
/// among the first `k`.
pub open spec fn received_from(
    nodes: Seq<FactionModel>,
    k: nat,
    source: usize,
    peer_id: PeerId,
) -> Seq<FactionModel> {
    Seq::new(
        nodes.len(),
        |j: int|
            if j < k && j != source {
                process_next(nodes[j], Command::ReadyObserved { peer_id })
            } else {
                nodes[j]
            },
    )
}

/// A broadcast reaches every other node exactly once: delivering it makes each of them process
/// the ready signal, and leaves the source as it is.
pub proof fn lemma_deliver_broadcast(nodes: Seq<FactionModel>, k: nat, source: usize, peer_id: PeerId)
    requires
        k <= nodes.len(),
        k <= usize::MAX,
    ensures
        deliver(nodes, broadcast_queue(k, source, peer_id)) == received_from(nodes, k, source, peer_id),
    decreases k,
{
    if k == 0 {
        assert(received_from(nodes, 0, source, peer_id) =~= nodes);
    } else {
        let last = (k - 1) as usize;
        lemma_deliver_broadcast(nodes, (k - 1) as nat, source, peer_id);
        let earlier = broadcast_queue((k - 1) as nat, source, peer_id);
        let before = received_from(nodes, (k - 1) as nat, source, peer_id);
        if last == source {
            assert(received_from(nodes, k, source, peer_id) =~= before);
        } else {
            let tail = seq![(last, Command::ReadyObserved { peer_id })];
            assert(earlier.push((last, Command::ReadyObserved { peer_id })) =~= earlier + tail);
            lemma_deliver_append(nodes, earlier, tail);
            let ready = Command::ReadyObserved { peer_id };
            let after = before.update(last as int, process_next(before[last as int], ready));
            assert(tail.drop_first() =~= Seq::<(usize, Command)>::empty());
            assert(deliver(before, tail) == deliver(after, tail.drop_first()));
            assert(after =~= received_from(nodes, k, source, peer_id));
        }
    }
}

impl Simulation {
    /// No nodes and nothing queued.
    fn empty() -> (r: Self)
        ensures
            r@.wf(),
            r@.nodes.len() == 0,
    {
        let r = Simulation { peers: Vec::new(), peer_ids: Vec::new(), pending: VecDeque::new() };
        assert(r@.peer_ids =~= peer_range(0));
        r
    }

    fn new(peer_count: usize, required_count: usize) -> (r: Self)
        ensures
            r@.wf(),
            r@.peer_ids == peer_range(peer_count as nat),
            r@.pending.len() == 0,
            forall|i: int| 0 <= i < peer_count ==> #[trigger] r@.nodes[i] == initial_model(
                node_config(i as PeerId, peer_range(peer_count as nat), required_count),
            ),
    {
        let mut peer_ids: Vec<PeerId> = Vec::new();
        let mut i: usize = 0;
        while i < peer_count
            invariant
                i <= peer_count,
                peer_ids@ == peer_range(i as nat),
            decreases peer_count - i,
        {
            peer_ids.push(i as PeerId);
            i = i + 1;
            assert(peer_ids@ =~= peer_range(i as nat));
        }
        let mut peers: Vec<Faction> = Vec::new();
        let mut j: usize = 0;
        while j < peer_count
            invariant
                j <= peer_count,
                peer_ids@ == peer_range(peer_count as nat),
                peers@.len() == j,
                forall|k: int| 0 <= k < j ==> #[trigger] peers@[k]@ == initial_model(
                    node_config(k as PeerId, peer_range(peer_count as nat), required_count),
                ),
            decreases peer_count - j,
        {
            let faction = Faction::new(
                Config::new(peer_ids[j], copy_peers(&peer_ids), QuorumPolicy::new(required_count)),
                Box::new(NoOpObserver),
            );
            peers.push(faction);
            j = j + 1;
        }
        let r = Simulation { peers, peer_ids, pending: VecDeque::new() };
        assert forall|k: int| 0 <= k < peer_count implies #[trigger] r@.nodes[k] == initial_model(
            node_config(k as PeerId, peer_range(peer_count as nat), required_count),
        ) by {
            assert(r@.nodes[k] == r.peers@[k]@);
        }
        r
    }

    fn apply_to(&mut self, index: usize, command: Command) -> (r: Vec<Outcome>)
        requires
            old(self)@.wf(),
            index < old(self)@.nodes.len(),
        ensures
            final(self)@.wf(),
            r@ == process_result(old(self)@.nodes[index as int], command).outcomes(),
            final(self)@.nodes == old(self)@.nodes.update(
                index as int,
                process_next(old(self)@.nodes[index as int], command),
            ),
            final(self)@.peer_ids == old(self)@.peer_ids,
            final(self)@.pending == old(self)@.pending,
    {
        assert(self.peers@[index as int]@ == self@.nodes[index as int]);
        let r = outcomes_of(self.peers[index].process(command));
        assert(self@.nodes =~= old(self)@.nodes.update(
            index as int,
            process_next(old(self)@.nodes[index as int], command),
        ));
        r
    }

    /// Queues the ready signal of node `source_index` for every other node, in ascending order
    /// of the node, when its outputs hold a broadcast; touches no node.
    fn enqueue_broadcasts(&mut self, outputs: &[Outcome], source_index: usize)
        requires
            old(self)@.wf(),
            source_index < old(self)@.nodes.len(),
        ensures
            final(self)@.wf(),
            final(self)@.nodes == old(self)@.nodes,
            final(self)@.peer_ids == old(self)@.peer_ids,
            final(self)@.pending == old(self)@.pending + (if outputs@.contains(Outcome::BroadcastLocalReady) {
                broadcast_queue(old(self)@.nodes.len(), source_index, old(self)@.peer_ids[source_index as int])
            } else {
                Seq::empty()
            }),
            final(self)@.pending.len() == old(self)@.pending.len() + if outputs@.contains(
                Outcome::BroadcastLocalReady,
            ) {
                old(self)@.nodes.len() - 1
            } else {
                0int
            },
            outputs@.contains(Outcome::BroadcastLocalReady) ==> forall|k: int|
                0 <= k < old(self)@.nodes.len() - 1 ==> #[trigger] final(self)@.pending[old(self)@.pending.len() + k]
                    == ((if k < source_index { k } else { k + 1 }) as usize, Command::ReadyObserved {
                    peer_id: old(self)@.peer_ids[source_index as int],
                }),
    {
        proof {
            lemma_broadcast_queue_shape(old(self)@.nodes.len(), source_index, old(self)@.peer_ids[source_index as int]);
        }
        let mut broadcast = false;
        let mut i: usize = 0;
        while i < outputs.len()
            invariant
                i <= outputs@.len(),
                broadcast == exists|k: int| 0 <= k < i && outputs@[k] == Outcome::BroadcastLocalReady,
            decreases outputs@.len() - i,
        {
            if let Outcome::BroadcastLocalReady = outputs[i] {
                broadcast = true;
            }
            i = i + 1;
        }
        if !broadcast {
            assert(!outputs@.contains(Outcome::BroadcastLocalReady));
            assert(self@.pending =~= old(self)@.pending + Seq::empty());
            return;
        }
        let peer_id = self.peer_ids[source_index];
        let n = self.peers.len();
        proof {
            lemma_broadcast_queue_wf(n as nat, source_index, peer_id);
        }
        let mut target: usize = 0;
        while target < n
            invariant
                n == old(self)@.nodes.len(),
                target <= n,
                source_index < n,
                peer_id == old(self)@.peer_ids[source_index as int],
                self@.nodes == old(self)@.nodes,
                self@.peer_ids == old(self)@.peer_ids,
                self@.pending == old(self)@.pending + broadcast_queue(target as nat, source_index, peer_id),
            decreases n - target,
        {
            if target != source_index {
                self.pending.push_back((target, Command::ReadyObserved { peer_id }));
            }
            target = target + 1;
            assert(self@.pending =~= old(self)@.pending + broadcast_queue(target as nat, source_index, peer_id));
        }
        proof {
            lemma_broadcast_queue_wf(n as nat, source_index, peer_id);
            let q = broadcast_queue(n as nat, source_index, peer_id);
            let p = self@.pending;
            let o = old(self)@.pending;
            assert forall|k: int| 0 <= k < p.len() implies (#[trigger] p[k]).0 < n && p[k].1 is ReadyObserved by {
                if k >= o.len() {
                    assert(p[k] == q[k - o.len()]);
                }
            }
        }
    }

    fn drain_pending(&mut self)
        requires
            old(self)@.wf(),
        ensures
            final(self)@.wf(),
            final(self)@.nodes == deliver(old(self)@.nodes, old(self)@.pending),
            final(self)@.peer_ids == old(self)@.peer_ids,
            final(self)@.pending.len() == 0,
    {
        while self.pending.len() > 0
            invariant
                self@.wf(),
                self@.peer_ids == old(self)@.peer_ids,
                deliver(self@.nodes, self@.pending) == deliver(old(self)@.nodes, old(self)@.pending),
            decreases self@.pending.len(),
        {
            let next = self.pending.pop_front();
            if let Some((target, command)) = next {
                let ghost before = self@;
                let outputs = self.apply_to(target, command);
                proof {
                    law_only_local_completion_broadcasts(before.nodes[target as int], command);
                }
                self.enqueue_broadcasts(outputs.as_slice(), target);
                assert(self@.pending =~= before.pending);
            }
        }
    }

    fn apply_and_drain(&mut self, index: usize, command: Command)
        requires
            old(self)@.wf(),
            index < old(self)@.nodes.len(),
        ensures
            final(self)@.wf(),
            final(self)@.nodes == deliver(
                old(self)@.nodes.update(index as int, process_next(old(self)@.nodes[index as int], command)),
                old(self)@.pending + signals_after(old(self)@, index, command),
            ),
            final(self)@.peer_ids == old(self)@.peer_ids,
            final(self)@.pending.len() == 0,
    {
        let ghost before = self@;
        let outputs = self.apply_to(index, command);
        proof {
            law_only_local_completion_broadcasts(before.nodes[index as int], command);
        }
        self.enqueue_broadcasts(outputs.as_slice(), index);
        self.drain_pending();
    }

    fn index_of(&self, peer_id: PeerId) -> (r: usize)
        requires
            self@.wf(),
            self@.peer_ids.contains(peer_id),
        ensures
            r < self@.nodes.len(),
            self@.peer_ids[r as int] == peer_id,
    {
        let mut i: usize = 0;
        while i < self.peer_ids.len()
            invariant
                self@.wf(),
                self@.peer_ids.contains(peer_id),
                i <= self@.peer_ids.len(),
                forall|k: int| 0 <= k < i ==> self@.peer_ids[k] != peer_id,
            decreases self@.peer_ids.len() - i,
        {
            if self.peer_ids[i] == peer_id {
                return i;
            }
            i = i + 1;
        }
        proof {
            let k = self@.peer_ids.index_of(peer_id);
            assert(self@.peer_ids[k] == peer_id);
        }
        0
    }

    /// Every node observes the participation of `peer_id`; then the queued signals are delivered.
    fn inject_participation(&mut self, peer_id: PeerId)
        requires
            old(self)@.wf(),
        ensures
            final(self)@.wf(),
            final(self)@.peer_ids == old(self)@.peer_ids,
            final(self)@.pending.len() == 0,
            final(self)@.nodes == deliver(
                apply_each(old(self)@.nodes, Command::ParticipationObserved { peer_id }),
                old(self)@.pending,
            ),
            old(self)@.pending.len() == 0 ==> final(self)@.nodes == apply_each(
                old(self)@.nodes,
                Command::ParticipationObserved { peer_id },
            ),
    {
        self.inject_to_all(Command::ParticipationObserved { peer_id });
    }

    /// Every node observes the readiness of `peer_id`; then the queued signals are delivered.
    fn inject_ready(&mut self, peer_id: PeerId)
        requires
            old(self)@.wf(),
        ensures
            final(self)@.wf(),
            final(self)@.peer_ids == old(self)@.peer_ids,
            final(self)@.pending.len() == 0,
            final(self)@.nodes == deliver(
                apply_each(old(self)@.nodes, Command::ReadyObserved { peer_id }),
                old(self)@.pending,
            ),
            old(self)@.pending.len() == 0 ==> final(self)@.nodes == apply_each(
                old(self)@.nodes,
                Command::ReadyObserved { peer_id },
            ),
    {
        self.inject_to_all(Command::ReadyObserved { peer_id });
    }

    fn inject_to_all(&mut self, command: Command)
        requires
            old(self)@.wf(),
            !(command is LocalParticipationCompleted),
        ensures
            final(self)@.wf(),
            final(self)@.peer_ids == old(self)@.peer_ids,
            final(self)@.pending.len() == 0,
            final(self)@.nodes == deliver(apply_each(old(self)@.nodes, command), old(self)@.pending),
    {
        let n = self.peers.len();
        let mut index: usize = 0;
        while index < n
            invariant
                self@.wf(),
                n == self@.nodes.len(),
                n == old(self)@.nodes.len(),
                index <= n,
                !(command is LocalParticipationCompleted),
                self@.peer_ids == old(self)@.peer_ids,
                self@.pending == old(self)@.pending,
                forall|k: int|
                    0 <= k < index ==> #[trigger] self@.nodes[k] == process_next(old(self)@.nodes[k], command),
                forall|k: int| index <= k < n ==> #[trigger] self@.nodes[k] == old(self)@.nodes[k],
            decreases n - index,
        {
            let ghost before = self@;
            let outputs = self.apply_to(index, command);
            proof {
                law_only_local_completion_broadcasts(before.nodes[index as int], command);
            }
            self.enqueue_broadcasts(outputs.as_slice(), index);
            assert(self@.pending =~= before.pending);
            index = index + 1;
        }
        assert(self@.nodes =~= apply_each(old(self)@.nodes, command));
        self.drain_pending();
    }

    /// Node `peer_id` completes its local participation; its broadcast is delivered to the others.
    fn complete_local(&mut self, peer_id: PeerId)
        requires
            old(self)@.wf(),
            old(self)@.peer_ids.contains(peer_id),
        ensures
            old(self)@.pending.len() == 0 ==> final(self)@.nodes == (if accepts(
                old(self)@.nodes[peer_id as int].state,
                Command::LocalParticipationCompleted,
            ) {
                received_from(
                    old(self)@.nodes.update(
                        peer_id as int,
                        process_next(old(self)@.nodes[peer_id as int], Command::LocalParticipationCompleted),
                    ),
                    old(self)@.nodes.len(),
                    peer_id as usize,
                    peer_id,
                )
            } else {
                old(self)@.nodes.update(
                    peer_id as int,
                    process_next(old(self)@.nodes[peer_id as int], Command::LocalParticipationCompleted),
                )
            }),
            final(self)@.wf(),
            final(self)@.peer_ids == old(self)@.peer_ids,
            final(self)@.pending.len() == 0,
            final(self)@.nodes == deliver(
                old(self)@.nodes.update(
                    peer_id as int,
                    process_next(old(self)@.nodes[peer_id as int], Command::LocalParticipationCompleted),
                ),
                old(self)@.pending + signals_after(
                    old(self)@,
                    peer_id as usize,
                    Command::LocalParticipationCompleted,
                ),
            ),
    {
        let index = self.index_of(peer_id);
        self.apply_and_drain(index, Command::LocalParticipationCompleted);
        proof {
            let o = old(self)@;
            let updated = o.nodes.update(
                index as int,
                process_next(o.nodes[index as int], Command::LocalParticipationCompleted),
            );
            lemma_deliver_broadcast(updated, o.nodes.len(), index, peer_id);
            if o.pending.len() == 0 {
                assert(o.pending + signals_after(o, index, Command::LocalParticipationCompleted)
                    =~= signals_after(o, index, Command::LocalParticipationCompleted));
            }
        }
    }

    /// Node `peer_id` sees its deadline expire.
    fn expire_deadline(&mut self, peer_id: PeerId)
        requires
            old(self)@.wf(),
            old(self)@.peer_ids.contains(peer_id),
        ensures
            final(self)@.wf(),
            final(self)@.peer_ids == old(self)@.peer_ids,
            final(self)@.pending.len() == 0,
            final(self)@.nodes == deliver(
                old(self)@.nodes.update(
                    peer_id as int,
                    process_next(old(self)@.nodes[peer_id as int], Command::DeadlineExpired),
                ),
                old(self)@.pending,
            ),
            old(self)@.pending.len() == 0 ==> final(self)@.nodes == old(self)@.nodes.update(
                peer_id as int,
                process_next(old(self)@.nodes[peer_id as int], Command::DeadlineExpired),
            ),
    {
        let index = self.index_of(peer_id);
        self.apply_and_drain(index, Command::DeadlineExpired);
        assert(old(self)@.pending + signals_after(old(self)@, index, Command::DeadlineExpired)
            =~= old(self)@.pending);
    }

    /// Whether every node has concluded; probing changes no node.
    fn all_exited(&mut self) -> (r: bool)
        requires
            old(self)@.wf(),
        ensures
            final(self)@ == old(self)@,
            r == forall|i: int|
                0 <= i < old(self)@.nodes.len() ==> (#[trigger] old(self)@.nodes[i]).view.is_concluded(),
    {
        let n = self.peers.len();
        let mut i: usize = 0;
        while i < n
            invariant
                self@ == old(self)@,
                self@.wf(),
                n == self@.nodes.len(),
                i <= n,
                forall|k: int| 0 <= k < i ==> (#[trigger] self@.nodes[k]).view.is_concluded(),
            decreases n - i,
        {
            let view = self.probe(i);
            if !view.is_concluded() {
                return false;
            }
            i = i + 1;
        }
        true
    }

    /// Whether every node has concluded with `mode`; probing changes no node.
    fn all_exited_with(&mut self, mode: Conclusion) -> (r: bool)
        requires
            old(self)@.wf(),
        ensures
            final(self)@ == old(self)@,
            r == forall|i: int|
                0 <= i < old(self)@.nodes.len() ==> (#[trigger] old(self)@.nodes[i]).view.conclusion()
                    == Some(mode),
    {
        let n = self.peers.len();
        let mut i: usize = 0;
        while i < n
            invariant
                self@ == old(self)@,
                self@.wf(),
                n == self@.nodes.len(),
                i <= n,
                forall|k: int| 0 <= k < i ==> (#[trigger] self@.nodes[k]).view.conclusion() == Some(mode),
            decreases n - i,
        {
            let view = self.probe(i);
            let same = match view.conclusion() {
                Some(Conclusion::Bootstrapped) => match mode {
                    Conclusion::Bootstrapped => true,
                },
                None => false,
            };
            if !same {
                return false;
            }
            i = i + 1;
        }
        true
    }

    fn pending_count(&self) -> (r: usize)
        ensures
            r == self@.pending.len(),
    {
        self.pending.len()
    }

    fn probe(&mut self, index: usize) -> (r: ClusterView)
        requires
            old(self)@.wf(),
            index < old(self)@.nodes.len(),
        ensures
            final(self)@ == old(self)@,
            r@ == old(self)@.nodes[index as int].view,
    {
        let ghost before = self@;
        let result = outcomes_and_view(self.peers[index].process(Command::Probe));
        assert(self@.nodes =~= before.nodes);
        result
    }

    /// The view node `peer_id` reports; probing changes nothing.
    fn cluster_view(&mut self, peer_id: PeerId) -> (r: ClusterView)
        requires
            old(self)@.wf(),
            old(self)@.peer_ids.contains(peer_id),
        ensures
            final(self)@ == old(self)@,
            r@ == old(self)@.nodes[peer_id as int].view,
    {
        let index = self.index_of(peer_id);
        self.probe(index)
    }
}

impl ClusterSimulation {
    #[verifier::type_invariant]
    closed spec fn wf(self) -> bool {
        self.sim@.wf()
    }

    /// Takes the simulation out, leaving an empty one behind.
    fn take(&mut self) -> (r: Simulation)
        ensures
            r@ == old(self)@,
            r@.wf(),
    {
        proof {
            use_type_invariant(&*self);
        }
        let mut sim = Simulation::empty();
        std::mem::swap(&mut sim, &mut self.sim);
        sim
    }

    pub fn new(peer_count: usize, required_count: usize) -> (r: Self)
        ensures
            r@.wf(),
            r@.peer_ids == peer_range(peer_count as nat),
            r@.pending.len() == 0,
            forall|i: int| 0 <= i < peer_count ==> #[trigger] r@.nodes[i] == initial_model(
                node_config(i as PeerId, peer_range(peer_count as nat), required_count),
            ),
    {
        ClusterSimulation { sim: Simulation::new(peer_count, required_count) }
    }

    /// Every node observes the participation of `peer_id`; then the queued signals are delivered.
    pub fn inject_participation(&mut self, peer_id: PeerId)
        ensures
            final(self)@.wf(),
            final(self)@.peer_ids == old(self)@.peer_ids,
            final(self)@.pending.len() == 0,
            final(self)@.nodes == deliver(
                apply_each(old(self)@.nodes, Command::ParticipationObserved { peer_id }),
                old(self)@.pending,
            ),
            old(self)@.pending.len() == 0 ==> final(self)@.nodes == apply_each(
                old(self)@.nodes,
                Command::ParticipationObserved { peer_id },
            ),
    {
        let mut sim = self.take();
        sim.inject_participation(peer_id);
        self.sim = sim;
    }

    /// Every node observes the readiness of `peer_id`; then the queued signals are delivered.
    pub fn inject_ready(&mut self, peer_id: PeerId)
        ensures
            final(self)@.wf(),
            final(self)@.peer_ids == old(self)@.peer_ids,
            final(self)@.pending.len() == 0,
            final(self)@.nodes == deliver(
                apply_each(old(self)@.nodes, Command::ReadyObserved { peer_id }),
                old(self)@.pending,
            ),
            old(self)@.pending.len() == 0 ==> final(self)@.nodes == apply_each(
                old(self)@.nodes,
                Command::ReadyObserved { peer_id },
            ),
    {
        let mut sim = self.take();
        sim.inject_ready(peer_id);
        self.sim = sim;
    }

    /// Node `peer_id` completes its local participation; its broadcast is delivered to the others.
    pub fn complete_local(&mut self, peer_id: PeerId)
        requires
            old(self)@.peer_ids.contains(peer_id),
        ensures
            old(self)@.pending.len() == 0 ==> final(self)@.nodes == (if accepts(
                old(self)@.nodes[peer_id as int].state,
                Command::LocalParticipationCompleted,
            ) {
                received_from(
                    old(self)@.nodes.update(
                        peer_id as int,
                        process_next(old(self)@.nodes[peer_id as int], Command::LocalParticipationCompleted),
                    ),
                    old(self)@.nodes.len(),
                    peer_id as usize,
                    peer_id,
                )
            } else {
                old(self)@.nodes.update(
                    peer_id as int,
                    process_next(old(self)@.nodes[peer_id as int], Command::LocalParticipationCompleted),
                )
            }),
            final(self)@.wf(),
            final(self)@.peer_ids == old(self)@.peer_ids,
            final(self)@.pending.len() == 0,
            final(self)@.nodes == deliver(
                old(self)@.nodes.update(
                    peer_id as int,
                    process_next(old(self)@.nodes[peer_id as int], Command::LocalParticipationCompleted),
                ),
                old(self)@.pending + signals_after(
                    old(self)@,
                    peer_id as usize,
                    Command::LocalParticipationCompleted,
                ),
            ),
    {
        let mut sim = self.take();
        sim.complete_local(peer_id);
        self.sim = sim;
    }

    /// Node `peer_id` sees its deadline expire.
    pub fn expire_deadline(&mut self, peer_id: PeerId)
        requires
            old(self)@.peer_ids.contains(peer_id),
        ensures
            final(self)@.wf(),
            final(self)@.peer_ids == old(self)@.peer_ids,
            final(self)@.pending.len() == 0,
            final(self)@.nodes == deliver(
                old(self)@.nodes.update(
                    peer_id as int,
                    process_next(old(self)@.nodes[peer_id as int], Command::DeadlineExpired),
                ),
                old(self)@.pending,
            ),
            old(self)@.pending.len() == 0 ==> final(self)@.nodes == old(self)@.nodes.update(
                peer_id as int,
                process_next(old(self)@.nodes[peer_id as int], Command::DeadlineExpired),
            ),
    {
        let mut sim = self.take();
        sim.expire_deadline(peer_id);
        self.sim = sim;
    }

    /// Whether every node has concluded; probing changes no node.
    pub fn all_exited(&mut self) -> (r: bool)
        ensures
            final(self)@ == old(self)@,
            r == forall|i: int|
                0 <= i < old(self)@.nodes.len() ==> (#[trigger] old(self)@.nodes[i]).view.is_concluded(),
    {
        let mut sim = self.take();
        let r = sim.all_exited();
        self.sim = sim;
        r
    }

    /// Whether every node has concluded with `mode`; probing changes no node.
    pub fn all_exited_with(&mut self, mode: Conclusion) -> (r: bool)
        ensures
            final(self)@ == old(self)@,
            r == forall|i: int|
                0 <= i < old(self)@.nodes.len() ==> (#[trigger] old(self)@.nodes[i]).view.conclusion()
                    == Some(mode),
    {
        let mut sim = self.take();
        let r = sim.all_exited_with(mode);
        self.sim = sim;
        r
    }

    pub fn pending_count(&self) -> (r: usize)
        ensures
            r == self@.pending.len(),
            self@.wf(),
    {
        proof {
            use_type_invariant(self);
        }
        self.sim.pending_count()
    }

    /// The view node `peer_id` reports; probing changes nothing.
    pub fn cluster_view(&mut self, peer_id: PeerId) -> (r: ClusterView)
        requires
            old(self)@.peer_ids.contains(peer_id),
        ensures
            final(self)@ == old(self)@,
            r@ == old(self)@.nodes[peer_id as int].view,
    {
        let mut sim = self.take();
        let r = sim.cluster_view(peer_id);
        self.sim = sim;
        r
    }
}

/// The signals node `index` queues after processing `command`: its ready signal to every
/// other node when the command is an accepted local completion.
pub open spec fn signals_after(m: SimulationModel, index: usize, command: Command) -> Seq<(usize, Command)> {
    if command is LocalParticipationCompleted && accepts(m.nodes[index as int].state, command) {
        broadcast_queue(m.nodes.len(), index, m.peer_ids[index as int])
    } else {
        Seq::empty()
    }
}

fn outcomes_and_view(result: ProcessResult) -> (r: ClusterView)
    ensures
        r@ == (match result@ {
            crate::process_result::ProcessResultModel::Accepted { cluster_view, .. } => cluster_view,
            crate::process_result::ProcessResultModel::Rejected { cluster_view, .. } => cluster_view,
            crate::process_result::ProcessResultModel::Probed { cluster_view, .. } => cluster_view,
        }),
{
    match result {
        ProcessResult::Accepted { cluster_view, .. } => cluster_view,
        ProcessResult::Rejected { cluster_view, .. } => cluster_view,
        ProcessResult::Probed { cluster_view, .. } => cluster_view,
    }
}

} // verus!

//! The decisions of a Sequence Paxos replica: its role and phase, the ballot it has
//! promised, which leader it follows, what it does with proposals and
//! confirmations, and the buffer of messages it has produced for the network.

use vstd::prelude::*;
use crate::messages::{Message, PaxosMessage, PaxosMsg};
use crate::proxy_node::copy_speculation;
use crate::util::{
    Ballot, ClusterConfig, FlexibleQuorum, LeaderState, NodeId, OmniPaxosConfig, Quorum, StopSign,
    ballot_leq, others, others_of, same_stopsign, valid_config,
};

verus! {

/// The phase of a replica.
#[derive(Clone, Copy, Debug, PartialEq, Eq, Structural)]
pub enum Phase {
    /// Collecting promises.
    Prepare,
    /// Accepting entries.
    Accept,
    /// Recovering after a crash or a lost connection to the leader.
    Recover,
    /// No phase yet.
    Unset,
}

/// The role of a replica.
#[derive(Clone, Copy, Debug, PartialEq, Eq, Structural)]
pub enum Role {
    /// Follows the current leader.
    Follower,
    /// Leads the current round.
    Leader,
}

/// Why a proposal was refused.
#[derive(Debug)]
pub enum ProposeErr<T> {
    /// A reconfiguration was accepted, so the entry is handed back.
    PendingReconfigEntry(T),
    /// A reconfiguration was accepted, so the new configuration is handed back.
    PendingReconfigConfig(ClusterConfig, Option<Vec<u8>>),
    /// The new configuration is invalid, so it is handed back.
    InvalidConfig(ClusterConfig, Option<Vec<u8>>),
}

/// Configuration of a Sequence Paxos replica.
#[derive(Clone, Debug)]
pub struct SequencePaxosConfig {
    /// The identifier of this server; must not be 0.
    pub pid: NodeId,
    /// The other servers of the cluster.
    pub peers: Vec<NodeId>,
    /// Capacity of the outgoing message buffer.
    pub buffer_size: usize,
    /// Size of the log batching buffer.
    pub batch_size: usize,
    /// Optional read and write quorum sizes.
    pub flexible_quorum: Option<FlexibleQuorum>,
}

impl SequencePaxosConfig {
    /// The replica configuration of an OmniPaxos configuration: every node of the
    /// cluster but this server becomes a peer.
    pub fn from(config: OmniPaxosConfig) -> (c: SequencePaxosConfig)
        ensures
            c.pid == config.server_config.pid,
            c.peers@ == others(config.cluster_config.nodes@, config.server_config.pid),
            c.flexible_quorum == config.cluster_config.flexible_quorum,
            c.buffer_size == config.server_config.buffer_size,
            c.batch_size == config.server_config.batch_size,
    {
        let pid = config.server_config.pid;
        let peers = others_of(&config.cluster_config.nodes, pid);
        SequencePaxosConfig {
            pid,
            peers,
            flexible_quorum: config.cluster_config.flexible_quorum,
            buffer_size: config.server_config.buffer_size,
            batch_size: config.server_config.batch_size,
        }
    }
}

/// What a replica reads back from its storage when it starts.
pub struct StoredState {
    /// The ballot promised before a crash, if any.
    pub promise: Option<Ballot>,
    /// The decided index.
    pub decided_idx: usize,
    /// An accepted stop sign, if any.
    pub stopsign: Option<StopSign>,
    /// Whether the stop sign is decided.
    pub stopsign_decided: bool,
}

/// A proposal accepted by the replica, to be buffered until its deadline.
pub struct Proposal<T> {
    /// The proxy that is answered once the entry is accepted.
    pub proxy: NodeId,
    /// The proposed entry.
    pub entry: T,
    /// Whether this replica leads, so that it also answers speculatively.
    pub im_leader: bool,
    /// The speculative result computed by the leader; `None` on a follower.
    pub speculation: Option<Option<Option<String>>>,
}

/// How the log of another server is brought up to date.
#[derive(Clone, Copy, Debug, PartialEq, Eq, Structural)]
pub enum LogSyncPlan {
    /// Send a snapshot of the decided entries that follow `diff_from`, the other log's
    /// decided index, then the suffix of the log from `suffix_from`, this replica's
    /// decided index; the storage that makes the snapshot says where it ends.
    Snapshot { diff_from: usize, suffix_from: usize },
    /// Send the suffix of the log from `from`, the end of the common prefix, which is
    /// also the index the other server syncs from.
    Suffix { from: usize, sync_idx: usize },
}

/// The largest of `pid` and the elements of `peers` (just `pid` when there are none).
pub open spec fn pid_max(pid: NodeId, peers: Seq<NodeId>) -> NodeId
    decreases peers.len(),
{
    if peers.len() == 0 {
        pid
    } else {
        let m = pid_max(pid, peers.drop_last());
        if peers.last() > m {
            peers.last()
        } else {
            m
        }
    }
}

/// A Sequence Paxos replica.
pub struct SequencePaxos<T> {
    pid: NodeId,
    peers: Vec<NodeId>,
    state: (Role, Phase),
    leader_state: LeaderState,
    promise: Ballot,
    decided_idx: usize,
    stopsign: Option<StopSign>,
    stopsign_decided: bool,
    outgoing: Vec<Message<T>>,
    latest_accepted_meta: Option<(Ballot, usize)>,
}

impl<T> SequencePaxos<T> {
    /// The identifier of this replica.
    pub closed spec fn pid(&self) -> NodeId {
        self.pid
    }

    /// The other servers of the cluster.
    pub closed spec fn peers(&self) -> Seq<NodeId> {
        self.peers@
    }

    /// The role and phase.
    pub closed spec fn role_phase(&self) -> (Role, Phase) {
        self.state
    }

    /// The leader state.
    pub closed spec fn leader(&self) -> LeaderState {
        self.leader_state
    }

    /// The promised ballot.
    pub closed spec fn promised(&self) -> Ballot {
        self.promise
    }

    /// The decided index.
    pub closed spec fn decided(&self) -> usize {
        self.decided_idx
    }

    /// The accepted stop sign and whether it is decided.
    pub closed spec fn stop(&self) -> (Option<StopSign>, bool) {
        (self.stopsign, self.stopsign_decided)
    }

    /// The messages produced and not yet taken.
    pub closed spec fn outbox(&self) -> Seq<Message<T>> {
        self.outgoing@
    }

    /// The metadata of the latest accepted entry since the outbox was last taken.
    pub closed spec fn accepted_meta(&self) -> Option<(Ballot, usize)> {
        self.latest_accepted_meta
    }

    /// Everything but the role, phase, leader state and promise is as in `other`.
    pub open spec fn same_log(&self, other: &Self) -> bool {
        &&& self.pid() == other.pid()
        &&& self.peers() == other.peers()
        &&& self.decided() == other.decided()
        &&& self.stop() == other.stop()
        &&& self.outbox() == other.outbox()
        &&& self.accepted_meta() == other.accepted_meta()
    }

    /// `p` is the proposal this replica makes of `entry` for `proxy`: it records whether
    /// the replica leads, and a leader's proposal carries a result of `speculate` on the
    /// entry while a follower's carries none.
    pub open spec fn proposed<S: Fn(&T) -> Option<Option<String>>>(
        &self,
        proxy: NodeId,
        entry: T,
        speculate: S,
        p: Proposal<T>,
    ) -> bool {
        &&& p.proxy == proxy
        &&& p.entry == entry
        &&& p.im_leader == (self.role_phase().0 == Role::Leader)
        &&& if p.im_leader {
            p.speculation matches Some(x) && call_ensures(speculate, (&entry,), x)
        } else {
            p.speculation is None
        }
    }

    /// `next` is `self` after answering the proxy of `p` that its entry, numbered `id`,
    /// is accepted at `accepted_idx` with history hash `hash`.
    pub open spec fn acknowledged(&self, next: &Self, p: Proposal<T>, id: usize, hash: u64, accepted_idx: usize) -> bool {
        &&& next.outbox() == self.outbox().push(
            Message::<T>::SequencePaxos(
                PaxosMessage {
                    from: self.pid(),
                    to: p.proxy,
                    msg: PaxosMsg::Ack(id, hash, p.speculation, accepted_idx),
                },
            ),
        )
        &&& next.pid() == self.pid()
        &&& next.peers() == self.peers()
        &&& next.role_phase() == self.role_phase()
        &&& next.leader() == self.leader()
        &&& next.promised() == self.promised()
        &&& next.decided() == self.decided()
        &&& next.stop() == self.stop()
        &&& next.accepted_meta() == self.accepted_meta()
    }

    /// `next` is `self` after being told that the leader election elected ballot `n`:
    /// a ballot no higher than the current leader's or the promise is ignored; a ballot
    /// of this server makes it the leader of a new round in the prepare phase, with `n`
    /// as its promise; a ballot of another server makes it a follower.
    pub open spec fn leader_handled(&self, next: &Self, n: Ballot) -> bool {
        &&& next.same_log(self)
        &&& if ballot_leq(n, self.leader().n_leader) || ballot_leq(n, self.promised()) {
            &&& next.role_phase() == self.role_phase()
            &&& next.leader() == self.leader()
            &&& next.promised() == self.promised()
        } else if self.pid() == n.pid {
            &&& next.role_phase() == (Role::Leader, Phase::Prepare)
            &&& next.leader() == LeaderState {
                n_leader: n,
                max_pid: self.leader().max_pid,
                quorum: self.leader().quorum,
            }
            &&& next.promised() == n
        } else {
            &&& next.role_phase() == (Role::Follower, self.role_phase().1)
            &&& next.leader() == self.leader()
            &&& next.promised() == self.promised()
        }
    }

    /// Creates a replica from its configuration and what its storage holds.  A replica
    /// that finds a promise in storage starts recovering as a follower of that ballot;
    /// otherwise it starts as a follower with no phase and the lowest ballot.
    pub fn with(config: SequencePaxosConfig, stored: StoredState) -> (sp: Self)
        requires
            config.peers@.len() < usize::MAX,
        ensures
            sp.pid() == config.pid,
            sp.peers() == config.peers@,
            sp.role_phase() == (match stored.promise {
                Some(_) => (Role::Follower, Phase::Recover),
                None => (Role::Follower, Phase::Unset),
            }),
            sp.promised() == (match stored.promise {
                Some(b) => b,
                None => Ballot { config_id: 0, n: 0, priority: 0, pid: 0 },
            }),
            sp.leader() == (LeaderState {
                n_leader: sp.promised(),
                max_pid: pid_max(config.pid, config.peers@) as usize,
                quorum: (match config.flexible_quorum {
                    Some(f) => Quorum::Flexible(f),
                    None => Quorum::Majority(((config.peers@.len() + 1) / 2 + 1) as usize),
                }),
            }),
            sp.decided() == stored.decided_idx,
            sp.stop() == (stored.stopsign, stored.stopsign_decided),
            sp.outbox() == Seq::<Message<T>>::empty(),
            sp.accepted_meta() is None,
            config.flexible_quorum is None ==> (sp.leader().quorum matches Quorum::Majority(q) && 2 * q
                > config.peers@.len() + 1 && q <= config.peers@.len() + 1),
            pid_max(config.pid, config.peers@) <= usize::MAX ==> {
                &&& config.pid <= sp.leader().max_pid
                &&& forall|i: int| 0 <= i < config.peers@.len() ==> config.peers@[i] <= sp.leader().max_pid
                &&& sp.leader().max_pid == config.pid || exists|i: int|
                    0 <= i < config.peers@.len() && config.peers@[i] == sp.leader().max_pid
            },
    {
        proof {
            pid_max_is_largest_id(config.pid, config.peers@);
        }
        let pid = config.pid;
        let peers = config.peers;
        let num_nodes = peers.len() + 1;
        let quorum = Quorum::with(config.flexible_quorum, num_nodes);
        let mut max_node: NodeId = pid;
        let mut i: usize = 0;
        while i < peers.len()
            invariant
                0 <= i <= peers@.len(),
                max_node == pid_max(pid, peers@.take(i as int)),
            decreases peers@.len() - i,
        {
            proof {
                assert(peers@.take(i + 1).drop_last() =~= peers@.take(i as int));
            }
            if peers[i] > max_node {
                max_node = peers[i];
            }
            i = i + 1;
        }
        proof {
            assert(peers@.take(peers@.len() as int) =~= peers@);
        }
        let max_pid: usize = #[verifier::truncate] (max_node as usize);
        let (state, leader) = match stored.promise {
            Some(b) => ((Role::Follower, Phase::Recover), b),
            None => ((Role::Follower, Phase::Unset), Ballot::zero()),
        };
        SequencePaxos {
            pid,
            peers,
            state,
            leader_state: LeaderState::with(leader, max_pid, quorum),
            promise: leader,
            decided_idx: stored.decided_idx,
            stopsign: stored.stopsign,
            stopsign_decided: stored.stopsign_decided,
            outgoing: Vec::new(),
            latest_accepted_meta: None,
        }
    }

    /// The role and phase.
    pub fn get_state(&self) -> (s: &(Role, Phase))
        ensures
            *s == self.role_phase(),
    {
        &self.state
    }

    /// The promised ballot.
    pub fn get_promise(&self) -> (b: Ballot)
        ensures
            b == self.promised(),
    {
        self.promise
    }

    /// The leader state.
    pub fn get_leader_state(&self) -> (l: &LeaderState)
        ensures
            *l == self.leader(),
    {
        &self.leader_state
    }

    /// The decided index.
    pub fn get_decided_idx(&self) -> (i: usize)
        ensures
            i == self.decided(),
    {
        self.decided_idx
    }

    /// Moves the outgoing messages of this replica to the end of `buffer`, so that no
    /// message the caller has not sent yet is discarded.
    pub fn take_outgoing_msgs(&mut self, buffer: &mut Vec<Message<T>>)
        ensures
            final(buffer)@ == old(buffer)@ + old(self).outbox(),
            final(self).outbox() == Seq::<Message<T>>::empty(),
            final(self).accepted_meta() is None,
            final(self).pid() == old(self).pid(),
            final(self).peers() == old(self).peers(),
            final(self).role_phase() == old(self).role_phase(),
            final(self).leader() == old(self).leader(),
            final(self).promised() == old(self).promised(),
            final(self).decided() == old(self).decided(),
            final(self).stop() == old(self).stop(),
    {
        if buffer.len() == 0 {
            std::mem::swap(buffer, &mut self.outgoing);
            proof {
                assert(buffer@ =~= Seq::<Message<T>>::empty() + old(self).outbox());
            }
        } else {
            buffer.append(&mut self.outgoing);
        }
        self.latest_accepted_meta = None;
    }

    /// Handles an incoming Sequence Paxos message.  A confirmation sets the decided
    /// index and, on a follower, returns the confirmed entry for execution; every other
    /// message is ignored.
    pub fn handle(&mut self, m: PaxosMessage<T>) -> (execute: Option<T>)
        ensures
            final(self).pid() == old(self).pid(),
            final(self).peers() == old(self).peers(),
            final(self).role_phase() == old(self).role_phase(),
            final(self).leader() == old(self).leader(),
            final(self).promised() == old(self).promised(),
            final(self).stop() == old(self).stop(),
            final(self).outbox() == old(self).outbox(),
            final(self).accepted_meta() == old(self).accepted_meta(),
            match m.msg {
                PaxosMsg::Confirm(entry, idx) => {
                    &&& final(self).decided() == idx
                    &&& execute == (if old(self).role_phase().0 == Role::Follower {
                        Some(entry)
                    } else {
                        None
                    })
                },
                _ => final(self).decided() == old(self).decided() && execute is None,
            },
    {
        match m.msg {
            PaxosMsg::Confirm(entry, accepted_idx) => self.handle_execution(entry, accepted_idx),
            _ => None,
        }
    }

    /// Records that the log is decided up to `accepted_idx`; a follower executes `entry`.
    pub fn handle_execution(&mut self, entry: T, accepted_idx: usize) -> (execute: Option<T>)
        ensures
            final(self).pid() == old(self).pid(),
            final(self).peers() == old(self).peers(),
            final(self).role_phase() == old(self).role_phase(),
            final(self).leader() == old(self).leader(),
            final(self).promised() == old(self).promised(),
            final(self).stop() == old(self).stop(),
            final(self).outbox() == old(self).outbox(),
            final(self).accepted_meta() == old(self).accepted_meta(),
            final(self).decided() == accepted_idx,
            execute == (if old(self).role_phase().0 == Role::Follower {
                Some(entry)
            } else {
                None
            }),
    {
        let execute = match self.state.0 {
            Role::Follower => Some(entry),
            Role::Leader => None,
        };
        self.decided_idx = accepted_idx;
        execute
    }

    /// The stop sign, when one is accepted and decided.
    pub fn is_reconfigured(&self) -> (ss: Option<StopSign>)
        ensures
            (self.stop().1 && self.stop().0 is Some) ==> ss is Some && same_stopsign(
                ss.unwrap(),
                self.stop().0.unwrap(),
            ),
            !(self.stop().1 && self.stop().0 is Some) ==> ss is None,
    {
        match &self.stopsign {
            Some(ss) if self.stopsign_decided => Some(ss.clone_stopsign()),
            _ => None,
        }
    }

    /// Whether a reconfiguration has been accepted, which stops this instance.
    pub fn accepted_reconfiguration(&self) -> (r: bool)
        ensures
            r == self.stop().0 is Some,
    {
        self.stopsign.is_some()
    }

    /// Proposes `entry` on behalf of `proxy`.  A stopped replica hands the entry back;
    /// otherwise the proposal records whether this replica leads, and a leader also
    /// computes its speculative result with `speculate` (a follower does not call it).
    pub fn append<S: Fn(&T) -> Option<Option<String>>>(&mut self, proxy: NodeId, entry: T, speculate: S) -> (r:
        Result<Proposal<T>, ProposeErr<T>>)
        requires
            old(self).stop().0 is None && old(self).role_phase().0 == Role::Leader
                ==> call_requires(speculate, (&entry,)),
        ensures
            *final(self) == *old(self),
            old(self).stop().0 is Some ==> r == Err::<Proposal<T>, ProposeErr<T>>(
                ProposeErr::PendingReconfigEntry(entry),
            ),
            old(self).stop().0 is None ==> (r matches Ok(p) && old(self).proposed(proxy, entry, speculate, p)),
    {
        if self.accepted_reconfiguration() {
            Err(ProposeErr::PendingReconfigEntry(entry))
        } else {
            Ok(self.propose_entry(proxy, entry, speculate))
        }
    }

    fn propose_entry<S: Fn(&T) -> Option<Option<String>>>(&self, proxy: NodeId, entry: T, speculate: S) -> (p:
        Proposal<T>)
        requires
            self.role_phase().0 == Role::Leader ==> call_requires(speculate, (&entry,)),
        ensures
            self.proposed(proxy, entry, speculate, p),
    {
        let im_leader = match self.state.0 {
            Role::Follower => false,
            Role::Leader => true,
        };
        let speculation = if im_leader {
            Some(speculate(&entry))
        } else {
            None
        };
        Proposal { proxy, entry, im_leader, speculation }
    }

    /// Announces to every peer the new deadline of entry `id` when the buffer reported
    /// one; does nothing otherwise.
    pub fn report_deadline(&mut self, id: usize, new_deadline: Option<u64>)
        ensures
            new_deadline matches Some(d) ==> final(self).outbox() == old(self).outbox() + old(
                self,
            ).peers().map_values(
                |peer: NodeId|
                    Message::<T>::SequencePaxos(
                        PaxosMessage { from: old(self).pid(), to: peer, msg: PaxosMsg::NewDeadline(id, d) },
                    ),
            ),
            new_deadline is None ==> final(self).outbox() == old(self).outbox(),
            final(self).pid() == old(self).pid(),
            final(self).peers() == old(self).peers(),
            final(self).role_phase() == old(self).role_phase(),
            final(self).leader() == old(self).leader(),
            final(self).promised() == old(self).promised(),
            final(self).decided() == old(self).decided(),
            final(self).stop() == old(self).stop(),
            final(self).accepted_meta() == old(self).accepted_meta(),
    {
        match new_deadline {
            Some(d) => self.announce_new_deadline(id, d),
            None => {},
        }
    }

    /// Proposes a reconfiguration to `new_config`.  A stopped replica hands the
    /// configuration back, and so does a running one when `new_config` is invalid.
    pub fn reconfigure(&mut self, new_config: ClusterConfig, metadata: Option<Vec<u8>>) -> (r: Result<
        (),
        ProposeErr<T>,
    >)
        ensures
            *final(self) == *old(self),
            old(self).stop().0 is Some ==> r == Err::<(), ProposeErr<T>>(
                ProposeErr::PendingReconfigConfig(new_config, metadata),
            ),
            old(self).stop().0 is None && !valid_config(new_config) ==> r == Err::<
                (),
                ProposeErr<T>,
            >(ProposeErr::InvalidConfig(new_config, metadata)),
            old(self).stop().0 is None && valid_config(new_config) ==> r is Ok,
    {
        if self.accepted_reconfiguration() {
            return Err(ProposeErr::PendingReconfigConfig(new_config, metadata));
        }
        if !new_config.validate() {
            return Err(ProposeErr::InvalidConfig(new_config, metadata));
        }
        Ok(())
    }

    /// The server this replica believes to lead: the owner of its promised ballot.
    pub fn get_current_leader(&self) -> (id: NodeId)
        ensures
            id == self.promised().pid,
    {
        self.promise.pid
    }

    /// Handles a re-established connection to `pid`: a lost leader sends this replica
    /// back to recovery as a follower.
    pub fn reconnected(&mut self, pid: NodeId)
        ensures
            final(self).same_log(&*old(self)),
            final(self).leader() == old(self).leader(),
            final(self).promised() == old(self).promised(),
            final(self).role_phase() == (if pid != old(self).pid() && pid == old(
                self,
            ).promised().pid {
                (Role::Follower, Phase::Recover)
            } else {
                old(self).role_phase()
            }),
    {
        if pid == self.pid {
            return;
        } else if pid == self.get_current_leader() {
            self.state = (Role::Follower, Phase::Recover);
        }
    }

    /// Handles a new leader elected with ballot `n`.
    pub fn handle_leader(&mut self, n: Ballot)
        ensures
            old(self).leader_handled(&*final(self), n),
    {
        if n.leq(&self.leader_state.n_leader) || n.leq(&self.promise) {
            return;
        }
        if self.pid == n.pid {
            self.leader_state = LeaderState::with(
                n,
                self.leader_state.max_pid,
                self.leader_state.quorum,
            );
            self.promise = n;
            self.state = (Role::Leader, Phase::Prepare);
        } else {
            self.become_follower();
        }
    }

    /// Turns this replica into a follower, keeping its phase.
    pub fn become_follower(&mut self)
        ensures
            final(self).same_log(&*old(self)),
            final(self).leader() == old(self).leader(),
            final(self).promised() == old(self).promised(),
            final(self).role_phase() == (Role::Follower, old(self).role_phase().1),
    {
        self.state.0 = Role::Follower;
    }

    /// Announces to every peer that entry `id` now has deadline `deadline`.
    pub fn announce_new_deadline(&mut self, id: usize, deadline: u64)
        ensures
            final(self).outbox() == old(self).outbox() + old(self).peers().map_values(
                |peer: NodeId|
                    Message::<T>::SequencePaxos(
                        PaxosMessage { from: old(self).pid(), to: peer, msg: PaxosMsg::NewDeadline(id, deadline) },
                    ),
            ),
            final(self).pid() == old(self).pid(),
            final(self).peers() == old(self).peers(),
            final(self).role_phase() == old(self).role_phase(),
            final(self).leader() == old(self).leader(),
            final(self).promised() == old(self).promised(),
            final(self).decided() == old(self).decided(),
            final(self).stop() == old(self).stop(),
            final(self).accepted_meta() == old(self).accepted_meta(),
    {
        let ghost start = self.outgoing@;
        let ghost f = |peer: NodeId|
            Message::<T>::SequencePaxos(
                PaxosMessage { from: self.pid, to: peer, msg: PaxosMsg::NewDeadline(id, deadline) },
            );
        let mut i: usize = 0;
        while i < self.peers.len()
            invariant
                0 <= i <= self.peers@.len(),
                self.peers@ == old(self).peers@,
                self.pid == old(self).pid,
                f == (|peer: NodeId|
                    Message::<T>::SequencePaxos(
                        PaxosMessage { from: self.pid, to: peer, msg: PaxosMsg::NewDeadline(id, deadline) },
                    )),
                self.outgoing@ == start + self.peers@.take(i as int).map_values(f),
                self.state == old(self).state,
                self.leader_state == old(self).leader_state,
                self.promise == old(self).promise,
                self.decided_idx == old(self).decided_idx,
                self.stopsign == old(self).stopsign,
                self.stopsign_decided == old(self).stopsign_decided,
                self.latest_accepted_meta == old(self).latest_accepted_meta,
                start == old(self).outgoing@,
            decreases self.peers@.len() - i,
        {
            let peer = self.peers[i];
            self.outgoing.push(
                Message::SequencePaxos(
                    PaxosMessage { from: self.pid, to: peer, msg: PaxosMsg::NewDeadline(id, deadline) },
                ),
            );
            proof {
                assert(self.peers@.take(i + 1).map_values(f) =~= self.peers@.take(i as int).map_values(
                    f,
                ).push(f(peer)));
            }
            i = i + 1;
        }
        proof {
            assert(self.peers@.take(self.peers@.len() as int) =~= self.peers@);
        }
    }

    /// Answers `proxy` that entry `id` is accepted at `accepted_idx`, with the history
    /// hash and the speculative result.
    pub fn acknowledge(
        &mut self,
        proxy: NodeId,
        id: usize,
        hash: u64,
        speculation: Option<Option<Option<String>>>,
        accepted_idx: usize,
    )
        ensures
            final(self).outbox() == old(self).outbox().push(
                Message::<T>::SequencePaxos(
                    PaxosMessage {
                        from: old(self).pid(),
                        to: proxy,
                        msg: PaxosMsg::Ack(id, hash, speculation, accepted_idx),
                    },
                ),
            ),
            final(self).pid() == old(self).pid(),
            final(self).peers() == old(self).peers(),
            final(self).role_phase() == old(self).role_phase(),
            final(self).leader() == old(self).leader(),
            final(self).promised() == old(self).promised(),
            final(self).decided() == old(self).decided(),
            final(self).stop() == old(self).stop(),
            final(self).accepted_meta() == old(self).accepted_meta(),
    {
        let from = self.pid;
        self.outgoing.push(
            Message::SequencePaxos(
                PaxosMessage { from, to: proxy, msg: PaxosMsg::Ack(id, hash, speculation, accepted_idx) },
            ),
        );
    }

    /// Answers the proxy of proposal `p` that its entry, numbered `id`, is accepted at
    /// `accepted_idx`: the acknowledgement carries the history hash and the
    /// speculative result the proposal was made with.
    pub fn acknowledge_proposal(&mut self, p: &Proposal<T>, id: usize, hash: u64, accepted_idx: usize)
        ensures
            old(self).acknowledged(&*final(self), *p, id, hash, accepted_idx),
    {
        let speculation = copy_speculation(&p.speculation);
        self.acknowledge(p.proxy, id, hash, speculation, accepted_idx);
    }

    /// Plans how to bring another server's log up to date, given whether entries
    /// are snapshotted, where the two logs stop agreeing and how far the other log
    /// is decided: with snapshots, and when this replica has decided past the common
    /// prefix, a snapshot from the other's decided index and the suffix from this
    /// replica's decided index; otherwise the suffix from the common prefix.
    pub fn plan_log_sync(&self, use_snapshots: bool, common_prefix_idx: usize, other_logs_decided_idx: usize) -> (plan:
        LogSyncPlan)
        ensures
            plan == (if use_snapshots && self.decided() > common_prefix_idx {
                LogSyncPlan::Snapshot { diff_from: other_logs_decided_idx, suffix_from: self.decided() }
            } else {
                LogSyncPlan::Suffix { from: common_prefix_idx, sync_idx: common_prefix_idx }
            }),
    {
        if use_snapshots && self.decided_idx > common_prefix_idx {
            LogSyncPlan::Snapshot { diff_from: other_logs_decided_idx, suffix_from: self.decided_idx }
        } else {
            LogSyncPlan::Suffix { from: common_prefix_idx, sync_idx: common_prefix_idx }
        }
    }
}

/// The promise of a replica never decreases when a leader is handled.
pub proof fn promise_never_decreases<T>(sp: SequencePaxos<T>, next: SequencePaxos<T>, n: Ballot)
    requires
        sp.leader_handled(&next, n),
    ensures
        ballot_leq(sp.promised(), next.promised()),
        ballot_leq(sp.leader().n_leader, next.leader().n_leader),
{
}

/// A replica elected with a ballot above everything it has seen leads that ballot in
/// the prepare phase and promises it.
pub proof fn elected_replica_leads<T>(sp: SequencePaxos<T>, next: SequencePaxos<T>, n: Ballot)
    requires
        sp.leader_handled(&next, n),
        !ballot_leq(n, sp.leader().n_leader),
        !ballot_leq(n, sp.promised()),
        n.pid == sp.pid(),
    ensures
        next.role_phase() == (Role::Leader, Phase::Prepare),
        next.promised() == n,
        next.leader().n_leader == n,
{
}

/// The acknowledgement of a proposal goes to the proxy it was made for and carries the
/// speculative result the proposal was made with: on a leader, a result of `speculate`
/// on the entry; on a follower, none.
pub proof fn ack_carries_proposal_speculation<T, S: Fn(&T) -> Option<Option<String>>>(
    proposer: SequencePaxos<T>,
    proxy: NodeId,
    entry: T,
    speculate: S,
    p: Proposal<T>,
    acker: SequencePaxos<T>,
    next: SequencePaxos<T>,
    id: usize,
    hash: u64,
    accepted_idx: usize,
)
    requires
        proposer.proposed(proxy, entry, speculate, p),
        acker.acknowledged(&next, p, id, hash, accepted_idx),
    ensures
        next.outbox().last() matches Message::SequencePaxos(PaxosMessage { from, to, msg }) && {
            &&& from == acker.pid()
            &&& to == proxy
            &&& msg matches PaxosMsg::Ack(i, h, s, a) && {
                &&& i == id && h == hash && a == accepted_idx
                &&& proposer.role_phase().0 == Role::Leader ==> (s matches Some(x) && call_ensures(
                    speculate,
                    (&entry,),
                    x,
                ))
                &&& proposer.role_phase().0 != Role::Leader ==> s is None
            }
        },
{
}

/// The largest server id a replica knows is the maximum of its own id and its peers':
/// no smaller than its own id, no smaller than any peer, and one of them.
pub proof fn pid_max_is_largest_id(pid: NodeId, peers: Seq<NodeId>)
    ensures
        pid <= pid_max(pid, peers),
        forall|i: int| 0 <= i < peers.len() ==> peers[i] <= pid_max(pid, peers),
        pid_max(pid, peers) == pid || exists|i: int| 0 <= i < peers.len() && peers[i] == pid_max(pid, peers),
    decreases peers.len(),
{
    if peers.len() > 0 {
        let rest = peers.drop_last();
        pid_max_is_largest_id(pid, rest);
        let m = pid_max(pid, rest);
        let r = pid_max(pid, peers);
        assert forall|i: int| 0 <= i < peers.len() implies peers[i] <= r by {
            if i < peers.len() - 1 {
                assert(peers[i] == rest[i]);
            }
        }
        if r != pid {
            if peers.last() > m {
                assert(peers[peers.len() - 1] == r);
            } else {
                let j = choose|j: int| 0 <= j < rest.len() && rest[j] == m;
                assert(peers[j] == r);
            }
        }
    }
}

} // verus!

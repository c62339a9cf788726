//! Basic identifiers, ballots and cluster configuration values.

use vstd::prelude::*;

verus! {

/// Identifier of a server in the cluster.
pub type NodeId = u64;

/// Identifier of a client.
pub type ClientId = u64;

/// Identifier of a cluster configuration.
pub type ConfigurationId = u32;

/// A ballot: the round number of a leader, ordered by `(n, priority, pid)`.
/// The configuration id does not take part in the order.
#[derive(Clone, Copy, Debug, PartialEq, Eq)]
pub struct Ballot {
    /// The configuration the ballot belongs to.
    pub config_id: ConfigurationId,
    /// The round number.
    pub n: u32,
    /// Custom priority used to break ties between equal round numbers.
    pub priority: u32,
    /// The server that created the ballot.
    pub pid: NodeId,
}

/// `a` is ordered at or before `b`: lexicographic on `(n, priority, pid)`.
pub open spec fn ballot_leq(a: Ballot, b: Ballot) -> bool {
    ||| a.n < b.n
    ||| (a.n == b.n && a.priority < b.priority)
    ||| (a.n == b.n && a.priority == b.priority && a.pid <= b.pid)
}

impl Ballot {
    /// Creates a ballot.
    pub fn with(config_id: ConfigurationId, n: u32, priority: u32, pid: NodeId) -> (b: Ballot)
        ensures
            b == (Ballot { config_id, n, priority, pid }),
    {
        Ballot { config_id, n, priority, pid }
    }

    /// The lowest ballot, all fields zero.
    pub fn zero() -> (b: Ballot)
        ensures
            b == (Ballot { config_id: 0, n: 0, priority: 0, pid: 0 }),
    {
        Ballot { config_id: 0, n: 0, priority: 0, pid: 0 }
    }

    /// Whether `self` is ordered at or before `other`.
    pub fn leq(&self, other: &Ballot) -> (r: bool)
        ensures
            r == ballot_leq(*self, *other),
    {
        self.n < other.n || (self.n == other.n && self.priority < other.priority) || (self.n
            == other.n && self.priority == other.priority && self.pid <= other.pid)
    }
}

impl Default for Ballot {
    fn default() -> (b: Ballot)
        ensures
            b == (Ballot { config_id: 0, n: 0, priority: 0, pid: 0 }),
    {
        Ballot::zero()
    }
}

/// Read and write quorum sizes of a flexible quorum.
#[derive(Clone, Copy, Debug, PartialEq, Eq)]
pub struct FlexibleQuorum {
    /// Number of servers that make a read quorum.
    pub read_quorum_size: usize,
    /// Number of servers that make a write quorum.
    pub write_quorum_size: usize,
}

/// The quorum rule that a leader uses.
#[derive(Clone, Copy, Debug, PartialEq, Eq)]
pub enum Quorum {
    /// A simple majority of the given size.
    Majority(usize),
    /// Separate read and write quorum sizes.
    Flexible(FlexibleQuorum),
}

impl Quorum {
    /// The quorum for a cluster of `num_nodes` servers: the flexible quorum when one is
    /// configured, a majority (`num_nodes / 2 + 1`) otherwise.
    pub fn with(flexible_quorum: Option<FlexibleQuorum>, num_nodes: usize) -> (q: Quorum)
        ensures
            q == (match flexible_quorum {
                Some(f) => Quorum::Flexible(f),
                None => Quorum::Majority((num_nodes / 2 + 1) as usize),
            }),
    {
        match flexible_quorum {
            Some(f) => Quorum::Flexible(f),
            None => Quorum::Majority(num_nodes / 2 + 1),
        }
    }
}

/// Cluster-wide settings of one configuration.
#[derive(Clone, Debug)]
pub struct ClusterConfig {
    /// The identifier of this configuration.
    pub configuration_id: ConfigurationId,
    /// The servers of the cluster.
    pub nodes: Vec<NodeId>,
    /// An optional flexible quorum; a majority is used otherwise.
    pub flexible_quorum: Option<FlexibleQuorum>,
}

/// The nodes of `nodes` other than `pid`, in their order.
pub open spec fn others(nodes: Seq<NodeId>, pid: NodeId) -> Seq<NodeId> {
    nodes.filter(|x: NodeId| x != pid)
}

/// The nodes of `nodes` other than `pid`, in their order.
pub fn others_of(nodes: &Vec<NodeId>, pid: NodeId) -> (peers: Vec<NodeId>)
    ensures
        peers@ == others(nodes@, pid),
{
    let mut peers: Vec<NodeId> = Vec::new();
    let mut i: usize = 0;
    while i < nodes.len()
        invariant
            0 <= i <= nodes@.len(),
            peers@ == others(nodes@.take(i as int), pid),
        decreases nodes@.len() - i,
    {
        proof {
            reveal_with_fuel(Seq::<NodeId>::filter, 1);
            assert(nodes@.take(i + 1).drop_last() =~= nodes@.take(i as int));
        }
        if nodes[i] != pid {
            peers.push(nodes[i]);
        }
        i = i + 1;
    }
    assert(nodes@.take(nodes@.len() as int) =~= nodes@);
    peers
}

/// A copy of `v`.
pub fn copy_vec<T: Copy>(v: &Vec<T>) -> (c: Vec<T>)
    ensures
        c@ == v@,
{
    let mut c: Vec<T> = Vec::new();
    let mut i: usize = 0;
    while i < v.len()
        invariant
            0 <= i <= v@.len(),
            c@ == v@.take(i as int),
        decreases v@.len() - i,
    {
        c.push(v[i]);
        proof {
            assert(v@.take(i + 1) =~= v@.take(i as int).push(v@[i as int]));
        }
        i = i + 1;
    }
    assert(v@.take(v@.len() as int) =~= v@);
    c
}

/// A configuration is valid when it has at least one node and, if it has a flexible
/// quorum, both quorum sizes are between 1 and the number of nodes and every read quorum
/// meets every write quorum (their sizes add up to more than the number of nodes).
pub open spec fn valid_config(c: ClusterConfig) -> bool {
    let n = c.nodes@.len();
    &&& n > 0
    &&& match c.flexible_quorum {
        Some(q) => 1 <= q.read_quorum_size <= n && 1 <= q.write_quorum_size <= n
            && q.read_quorum_size + q.write_quorum_size > n,
        None => true,
    }
}

impl ClusterConfig {
    /// Whether this configuration is valid.
    pub fn validate(&self) -> (ok: bool)
        ensures
            ok == valid_config(*self),
    {
        let n = self.nodes.len();
        if n == 0 {
            return false;
        }
        match self.flexible_quorum {
            Some(q) => 1 <= q.read_quorum_size && q.read_quorum_size <= n && 1
                <= q.write_quorum_size && q.write_quorum_size <= n && q.read_quorum_size
                > n - q.write_quorum_size,
            None => true,
        }
    }

    /// A copy of this configuration.
    pub fn clone_config(&self) -> (c: ClusterConfig)
        ensures
            c.configuration_id == self.configuration_id,
            c.nodes@ == self.nodes@,
            c.flexible_quorum == self.flexible_quorum,
    {
        ClusterConfig {
            configuration_id: self.configuration_id,
            nodes: copy_vec(&self.nodes),
            flexible_quorum: self.flexible_quorum,
        }
    }
}

/// Settings of one server.
#[derive(Clone, Debug)]
pub struct ServerConfig {
    /// The identifier of this server; must not be 0.
    pub pid: NodeId,
    /// Capacity of the outgoing message buffer.
    pub buffer_size: usize,
    /// Size of the log batching buffer; 1 means no batching.
    pub batch_size: usize,
}

/// Default outgoing buffer capacity of a server.
pub const DEFAULT_BUFFER_SIZE: usize = 100000;

/// Default batch size of a server (no batching).
pub const DEFAULT_BATCH_SIZE: usize = 1;

impl Default for ServerConfig {
    fn default() -> (c: ServerConfig)
        ensures
            c.pid == 0,
            c.buffer_size == DEFAULT_BUFFER_SIZE,
            c.batch_size == DEFAULT_BATCH_SIZE,
    {
        ServerConfig { pid: 0, buffer_size: DEFAULT_BUFFER_SIZE, batch_size: DEFAULT_BATCH_SIZE }
    }
}

/// Full configuration of an OmniPaxos server.
#[derive(Clone, Debug)]
pub struct OmniPaxosConfig {
    /// Cluster-wide settings.
    pub cluster_config: ClusterConfig,
    /// Settings of this server.
    pub server_config: ServerConfig,
}

/// A decided request to stop the current configuration and move to `next_config`.
#[derive(Clone, Debug)]
pub struct StopSign {
    /// The configuration that follows.
    pub next_config: ClusterConfig,
    /// Optional data committed alongside the reconfiguration.
    pub metadata: Option<Vec<u8>>,
}

/// `a` and `b` hold the same configuration and metadata.
pub open spec fn same_stopsign(a: StopSign, b: StopSign) -> bool {
    &&& a.next_config.configuration_id == b.next_config.configuration_id
    &&& a.next_config.nodes@ == b.next_config.nodes@
    &&& a.next_config.flexible_quorum == b.next_config.flexible_quorum
    &&& (a.metadata is Some <==> b.metadata is Some)
    &&& (a.metadata is Some ==> a.metadata.unwrap()@ == b.metadata.unwrap()@)
}

impl StopSign {
    /// A copy of this stop sign.
    pub fn clone_stopsign(&self) -> (s: StopSign)
        ensures
            same_stopsign(s, *self),
    {
        StopSign {
            next_config: self.next_config.clone_config(),
            metadata: match &self.metadata {
                Some(m) => Some(copy_vec(m)),
                None => None,
            },
        }
    }
}

/// A log update that brings another server's log in line with ours from `sync_idx` on.
#[derive(Clone, Debug)]
pub struct LogSync<T> {
    /// The entries after the common prefix.
    pub suffix: Vec<T>,
    /// The index from which the other log is overwritten.
    pub sync_idx: usize,
    /// A stop sign, when one was accepted.
    pub stopsign: Option<StopSign>,
}

/// The state a leader keeps about its own round.
#[derive(Clone, Copy, Debug, PartialEq, Eq)]
pub struct LeaderState {
    /// The ballot of the current leader.
    pub n_leader: Ballot,
    /// The largest server id of the cluster.
    pub max_pid: usize,
    /// The quorum rule in force.
    pub quorum: Quorum,
}

impl LeaderState {
    /// The leader state of round `n_leader`.
    pub fn with(n_leader: Ballot, max_pid: usize, quorum: Quorum) -> (s: LeaderState)
        ensures
            s == (LeaderState { n_leader, max_pid, quorum }),
    {
        LeaderState { n_leader, max_pid, quorum }
    }
}

} // verus!

//! Configuration of a key-value server: its local settings, the cluster it belongs
//! to, and the quality of its clock.

use vstd::prelude::*;
use crate::util::{
    ClusterConfig as OmnipaxosClusterConfig, DEFAULT_BATCH_SIZE, DEFAULT_BUFFER_SIZE,
    FlexibleQuorum, NodeId, OmniPaxosConfig, ServerConfig as OmnipaxosServerConfig, others, others_of,
};

verus! {

/// The cluster a server belongs to.
#[derive(Clone, Debug)]
pub struct ClusterConfig {
    /// The servers of the cluster.
    pub nodes: Vec<NodeId>,
    /// The network address of each server.
    pub node_addrs: Vec<String>,
    /// The server that takes the lead first.
    pub initial_leader: NodeId,
    /// Optional read and write quorum sizes.
    pub initial_flexible_quorum: Option<FlexibleQuorum>,
}

/// Clock quality: the uncertainty bound and how often the clock resynchronizes.
#[derive(Clone, Copy, Debug)]
pub struct ClockConfig {
    /// Clock uncertainty bound in microseconds (±): 10 is high quality, 100 medium,
    /// 1000 low.
    pub clock_uncertainty_us: u64,
    /// Resynchronization period in milliseconds: 1 is high quality, 10 medium, 100 low.
    pub clock_sync_interval_ms: u32,
}

/// The uncertainty bound used when none is configured: 10 microseconds.
pub fn default_clock_uncertainty_us() -> (u: u64)
    ensures
        u == 10,
{
    10
}

/// The resynchronization period used when none is configured: 1 millisecond.
pub fn default_clock_sync_interval_ms() -> (ms: u32)
    ensures
        ms == 1,
{
    1
}

/// Settings of this server.
#[derive(Clone, Debug)]
pub struct LocalConfig {
    /// Optional location label.
    pub location: Option<String>,
    /// The identifier of this server.
    pub server_id: NodeId,
    /// Address this server listens on.
    pub listen_address: String,
    /// Port this server listens on.
    pub listen_port: u16,
    /// Number of clients that connect to this server.
    pub num_clients: usize,
    /// File the configuration and results are written to.
    pub output_filepath: String,
    /// Optional clock quality.
    pub clock: Option<ClockConfig>,
}

/// The full configuration of a key-value server.
#[derive(Clone, Debug)]
pub struct OmniPaxosKVConfig {
    /// Settings of this server.
    pub local: LocalConfig,
    /// The cluster.
    pub cluster: ClusterConfig,
}

/// `s` is a non-empty run of ASCII digits.
pub open spec fn all_digits(s: Seq<u8>) -> bool {
    s.len() > 0 && forall|i: int| 0 <= i < s.len() ==> 48 <= #[trigger] s[i] <= 57
}

/// The number that the ASCII digits `s` spell in decimal.
pub open spec fn decimal_value(s: Seq<u8>) -> int
    decreases s.len(),
{
    if s.len() == 0 {
        0
    } else {
        decimal_value(s.drop_last()) * 10 + (s.last() - 48)
    }
}

/// The digits of an unsigned decimal literal: the text after one optional leading `+`.
pub open spec fn literal_digits(s: Seq<u8>) -> Seq<u8> {
    if s.len() > 0 && s[0] == 43 {
        s.drop_first()
    } else {
        s
    }
}

/// The value of the unsigned decimal literal `s` when it is one and fits in `max`: an
/// optional `+` followed by at least one ASCII digit.
pub open spec fn literal_value(s: Seq<u8>, max: int) -> Option<int> {
    let d = literal_digits(s);
    if all_digits(d) && decimal_value(d) <= max {
        Some(decimal_value(d))
    } else {
        None
    }
}

proof fn lemma_decimal_prefix_grows(s: Seq<u8>, i: int, j: int)
    requires
        0 <= i <= j <= s.len(),
        forall|k: int| 0 <= k < s.len() ==> 48 <= #[trigger] s[k] <= 57,
    ensures
        decimal_value(s.take(i)) <= decimal_value(s.take(j)),
        decimal_value(s.take(j)) >= 0,
    decreases j - i,
{
    if i < j {
        lemma_decimal_prefix_grows(s, i, j - 1);
        assert(s.take(j).drop_last() =~= s.take(j - 1));
    } else {
        lemma_decimal_nonneg(s.take(j));
    }
}

proof fn lemma_decimal_nonneg(s: Seq<u8>)
    requires
        forall|k: int| 0 <= k < s.len() ==> 48 <= #[trigger] s[k] <= 57,
    ensures
        decimal_value(s) >= 0,
    decreases s.len(),
{
    if s.len() > 0 {
        lemma_decimal_nonneg(s.drop_last());
    }
}

/// Reads an unsigned decimal number that fits in a `u64`, as `u64::from_str` accepts
/// it: an optional `+` followed by at least one ASCII digit.
pub fn parse_decimal_u64(s: &[u8]) -> (r: Option<u64>)
    ensures
        r == (match literal_value(s@, u64::MAX as int) {
            Some(v) => Some(v as u64),
            None => None::<u64>,
        }),
{
    let start: usize = if s.len() > 0 && s[0] == 43 {
        1
    } else {
        0
    };
    let ghost d = literal_digits(s@);
    proof {
        assert(d =~= s@.skip(start as int));
    }
    if start == s.len() {
        proof {
            assert(d.len() == 0);
            assert(!all_digits(d));
        }
        return None;
    }
    let mut acc: u64 = 0;
    let mut i: usize = start;
    proof {
        assert(d.take(0) =~= Seq::<u8>::empty());
    }
    while i < s.len()
        invariant
            d == literal_digits(s@),
            start <= i <= s@.len(),
            start < s@.len(),
            d == s@.skip(start as int),
            forall|k: int| 0 <= k < i - start ==> 48 <= #[trigger] d[k] <= 57,
            acc == decimal_value(d.take(i - start)),
        decreases s@.len() - i,
    {
        let b = s[i];
        if b < 48 || b > 57 {
            proof {
                assert(d[i - start] == b);
                assert(!(48 <= d[i - start] <= 57));
                assert(!all_digits(d));
            }
            return None;
        }
        proof {
            assert(d.take(i + 1 - start).drop_last() =~= d.take(i - start));
            assert(d[i - start] == b);
        }
        let digit: u64 = (b - 48) as u64;
        match acc.checked_mul(10) {
            Some(t) => match t.checked_add(digit) {
                Some(n) => {
                    acc = n;
                },
                None => {
                    proof {
                        overflow_stays(d, (i + 1 - start) as int);
                    }
                    return None;
                },
            },
            None => {
                proof {
                    overflow_stays(d, (i + 1 - start) as int);
                }
                return None;
            },
        }
        i = i + 1;
    }
    proof {
        assert(d.take(d.len() as int) =~= d);
    }
    Some(acc)
}

proof fn overflow_stays(d: Seq<u8>, n: int)
    requires
        0 < n <= d.len(),
        forall|k: int| 0 <= k < n ==> 48 <= #[trigger] d[k] <= 57,
        decimal_value(d.take(n)) > u64::MAX,
    ensures
        !(all_digits(d) && decimal_value(d) <= u64::MAX),
{
    if all_digits(d) {
        lemma_decimal_prefix_grows(d, n, d.len() as int);
        assert(d.take(d.len() as int) =~= d);
    }
}

/// Reads an unsigned decimal number that fits in a `u32`, as `u32::from_str` accepts
/// it: an optional `+` followed by at least one ASCII digit.
pub fn parse_decimal_u32(s: &[u8]) -> (r: Option<u32>)
    ensures
        r == (match literal_value(s@, u32::MAX as int) {
            Some(v) => Some(v as u32),
            None => None::<u32>,
        }),
{
    match parse_decimal_u64(s) {
        Some(v) => {
            proof {
                let d = literal_digits(s@);
                assert(literal_value(s@, u64::MAX as int) is Some);
                assert(all_digits(d) && decimal_value(d) <= u64::MAX);
                lemma_decimal_nonneg(d);
                assert(decimal_value(d) == v);
            }
            if v <= u32::MAX as u64 {
                Some(v as u32)
            } else {
                None
            }
        },
        None => {
            proof {
                let d = literal_digits(s@);
                if all_digits(d) && decimal_value(d) <= u32::MAX {
                    assert(decimal_value(d) <= u64::MAX);
                }
            }
            None
        },
    }
}

impl ClockConfig {
    /// The clock quality given by an uncertainty and a synchronization period, when
    /// both are present.
    pub fn from_values(uncertainty_us: Option<u64>, sync_interval_ms: Option<u32>) -> (c: Option<
        ClockConfig,
    >)
        ensures
            c == (match (uncertainty_us, sync_interval_ms) {
                (Some(u), Some(s)) => Some(
                    ClockConfig { clock_uncertainty_us: u, clock_sync_interval_ms: s },
                ),
                _ => None,
            }),
    {
        match (uncertainty_us, sync_interval_ms) {
            (Some(u), Some(s)) => Some(
                ClockConfig { clock_uncertainty_us: u, clock_sync_interval_ms: s },
            ),
            _ => None,
        }
    }
}

impl ClockConfig {
    /// The clock quality given by the texts of the uncertainty (microseconds) and of the
    /// synchronization period (milliseconds), when both are present and read as numbers.
    pub fn from_env_values(uncertainty_us: Option<&[u8]>, sync_interval_ms: Option<&[u8]>) -> (c:
        Option<ClockConfig>)
        ensures
            c == (match (uncertainty_us, sync_interval_ms) {
                (Some(u), Some(s)) => match (
                    literal_value(u@, u64::MAX as int),
                    literal_value(s@, u32::MAX as int),
                ) {
                    (Some(uv), Some(sv)) => Some(
                        ClockConfig {
                            clock_uncertainty_us: uv as u64,
                            clock_sync_interval_ms: sv as u32,
                        },
                    ),
                    _ => None,
                },
                _ => None,
            }),
    {
        let u = match uncertainty_us {
            Some(text) => parse_decimal_u64(text),
            None => None,
        };
        let s = match sync_interval_ms {
            Some(text) => parse_decimal_u32(text),
            None => None,
        };
        ClockConfig::from_values(u, s)
    }
}

/// The clock quality in force: the configured section, else the one from the
/// environment, else 10 microseconds and 1 millisecond.
pub open spec fn effective_clock(local: Option<ClockConfig>, env: Option<ClockConfig>) -> ClockConfig {
    match local {
        Some(c) => c,
        None => match env {
            Some(c) => c,
            None => ClockConfig { clock_uncertainty_us: 10, clock_sync_interval_ms: 1 },
        },
    }
}

impl OmniPaxosKVConfig {
    /// The servers of the cluster other than `node`, in their configured order.
    pub fn get_peers(&self, node: NodeId) -> (peers: Vec<NodeId>)
        ensures
            peers@ == others(self.cluster.nodes@, node),
    {
        others_of(&self.cluster.nodes, node)
    }

    /// The clock quality in force: the configured `[clock]` section, else the quality
    /// read from the environment (`env_clock`), else the defaults.
    pub fn clock_config(&self, env_clock: Option<ClockConfig>) -> (c: ClockConfig)
        ensures
            c == effective_clock(self.local.clock, env_clock),
    {
        match self.local.clock {
            Some(c) => c,
            None => match env_clock {
                Some(c) => c,
                None => ClockConfig {
                    clock_uncertainty_us: default_clock_uncertainty_us(),
                    clock_sync_interval_ms: default_clock_sync_interval_ms(),
                },
            },
        }
    }

    /// The clock quality in force as (uncertainty in microseconds, synchronization
    /// period in milliseconds).
    pub fn clock_quality(&self, env_clock: Option<ClockConfig>) -> (q: (u64, u32))
        ensures
            q == (
                effective_clock(self.local.clock, env_clock).clock_uncertainty_us,
                effective_clock(self.local.clock, env_clock).clock_sync_interval_ms,
            ),
    {
        let c = self.clock_config(env_clock);
        (c.clock_uncertainty_us, c.clock_sync_interval_ms)
    }

    /// The synchronization period in force, in milliseconds.
    pub fn sync_interval_ms(&self, env_clock: Option<ClockConfig>) -> (ms: u32)
        ensures
            ms == effective_clock(self.local.clock, env_clock).clock_sync_interval_ms,
    {
        self.clock_config(env_clock).clock_sync_interval_ms
    }
}

/// The OmniPaxos configuration of a key-value server configuration: configuration 1 of
/// the cluster's nodes and flexible quorum, and this server's id with the default
/// buffer and batch sizes.
pub open spec fn omnipaxos_config_of(c: OmniPaxosKVConfig) -> OmniPaxosConfig {
    OmniPaxosConfig {
        cluster_config: OmnipaxosClusterConfig {
            configuration_id: 1,
            nodes: c.cluster.nodes,
            flexible_quorum: c.cluster.initial_flexible_quorum,
        },
        server_config: OmnipaxosServerConfig {
            pid: c.local.server_id,
            buffer_size: DEFAULT_BUFFER_SIZE,
            batch_size: DEFAULT_BATCH_SIZE,
        },
    }
}

impl From<OmniPaxosKVConfig> for OmniPaxosConfig {
    fn from(c: OmniPaxosKVConfig) -> (r: OmniPaxosConfig)
        ensures
            r.cluster_config.flexible_quorum == c.cluster.initial_flexible_quorum,
            r.cluster_config.nodes@ == c.cluster.nodes@,
            r.cluster_config.configuration_id == 1,
            r.server_config.pid == c.local.server_id,
            r.server_config.buffer_size == DEFAULT_BUFFER_SIZE,
            r.server_config.batch_size == DEFAULT_BATCH_SIZE,
    {
        let cluster_config = OmnipaxosClusterConfig {
            configuration_id: 1,
            nodes: c.cluster.nodes,
            flexible_quorum: c.cluster.initial_flexible_quorum,
        };
        let server_config = OmnipaxosServerConfig {
            pid: c.local.server_id,
            buffer_size: DEFAULT_BUFFER_SIZE,
            batch_size: DEFAULT_BATCH_SIZE,
        };
        OmniPaxosConfig { cluster_config, server_config }
    }
}

impl vstd::std_specs::convert::FromSpecImpl<OmniPaxosKVConfig> for OmniPaxosConfig {
    open spec fn obeys_from_spec() -> bool {
        true
    }

    open spec fn from_spec(c: OmniPaxosKVConfig) -> OmniPaxosConfig {
        omnipaxos_config_of(c)
    }
}

/// The OmniPaxos configuration built from a server configuration carries the cluster
/// exactly as configured (its nodes and its initial flexible quorum, as configuration
/// 1) and the server's own id.
pub proof fn omnipaxos_config_keeps_cluster(c: OmniPaxosKVConfig)
    ensures
        omnipaxos_config_of(c).cluster_config.flexible_quorum == c.cluster.initial_flexible_quorum,
        omnipaxos_config_of(c).cluster_config.nodes@ == c.cluster.nodes@,
        omnipaxos_config_of(c).cluster_config.configuration_id == 1,
        omnipaxos_config_of(c).server_config.pid == c.local.server_id,
        omnipaxos_config_of(c).server_config.buffer_size == DEFAULT_BUFFER_SIZE,
        omnipaxos_config_of(c).server_config.batch_size == DEFAULT_BATCH_SIZE,
{
}

/// Two servers of the same cluster build the same cluster configuration, whatever their
/// local settings, and each keeps its own id.
pub proof fn servers_of_a_cluster_agree(c1: OmniPaxosKVConfig, c2: OmniPaxosKVConfig)
    requires
        c1.cluster == c2.cluster,
    ensures
        omnipaxos_config_of(c1).cluster_config == omnipaxos_config_of(c2).cluster_config,
        omnipaxos_config_of(c1).server_config.pid == c1.local.server_id,
        omnipaxos_config_of(c2).server_config.pid == c2.local.server_id,
{
}

} // verus!

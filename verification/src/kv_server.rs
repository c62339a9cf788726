//! The decisions of a key-value server: how decided commands update its database
//! and which clients it answers, how it counts fast-path answers, where a client's
//! request goes, and how its clock is configured.

use vstd::prelude::*;
use crate::kv_clock::{ClockId, ClockState};
use crate::kv_configs::{ClockConfig, OmniPaxosKVConfig, effective_clock};
use crate::kv_store::{
    Command, CommandId, Database, KVCommand, apply_all_concat, kv_apply, kv_apply_all, kv_read,
};
use crate::messages::Message;
use crate::util::{ClientId, NodeId, others};

verus! {

/// Milliseconds since the epoch at which an experiment starts.
pub type Timestamp = i64;

/// Answers a server sends to a client.
pub enum ServerMessage {
    /// The write with this id is applied.
    Write(CommandId),
    /// The read with this id returned this value.
    Read(CommandId, Option<String>),
    /// The experiment starts at this time.
    StartSignal(Timestamp),
}

/// An answer for a client, and whether the metrics are due to be written out after it.
pub struct Response {
    /// The client answered.
    pub client_id: ClientId,
    /// The answer.
    pub msg: ServerMessage,
    /// Whether the answer count reached a multiple of ten.
    pub flush_metrics: bool,
}

/// Counts of the answers a server gave.
pub struct ServerMetrics {
    /// Answers given.
    pub total_responses: u64,
    /// Answers given without a resynchronization during the last period.
    pub fast_path_responses: u64,
}

impl Default for ServerMetrics {
    fn default() -> (m: ServerMetrics)
        ensures
            m.total_responses == 0,
            m.fast_path_responses == 0,
    {
        ServerMetrics { total_responses: 0, fast_path_responses: 0 }
    }
}

impl ServerMetrics {
    /// Counts one answer, on the fast path when `fast` holds.
    pub fn record_response(&mut self, fast: bool)
        requires
            old(self).total_responses < u64::MAX,
            fast ==> old(self).fast_path_responses < u64::MAX,
        ensures
            final(self).total_responses == old(self).total_responses + 1,
            final(self).fast_path_responses == old(self).fast_path_responses + (if fast {
                1int
            } else {
                0int
            }),
            old(self).fast_path_responses <= old(self).total_responses
                ==> final(self).fast_path_responses <= final(self).total_responses,
    {
        self.total_responses = self.total_responses + 1;
        if fast {
            self.fast_path_responses = self.fast_path_responses + 1;
        }
    }

    /// Whether the metrics are due to be written out: every tenth answer.
    pub fn should_flush(&self) -> (r: bool)
        ensures
            r == (self.total_responses % 10 == 0),
    {
        self.total_responses % 10 == 0
    }
}

/// An answer is on the fast path unless the clock was resynchronized within the last
/// synchronization period; `since_resync` is the time since the last resynchronization,
/// if there was one.
pub fn is_fast_path(since_resync: Option<u64>, sync_interval: u64) -> (fast: bool)
    ensures
        fast == (match since_resync {
            Some(e) => e > sync_interval,
            None => true,
        }),
{
    match since_resync {
        Some(e) => e > sync_interval,
        None => true,
    }
}

/// The answer to command `id` that read `read`: the value for a read, a write
/// confirmation otherwise.
pub open spec fn answer(id: CommandId, read: Option<Option<String>>) -> ServerMessage {
    match read {
        Some(r) => ServerMessage::Read(id, r),
        None => ServerMessage::Write(id),
    }
}

/// The operations of `cs`.
pub open spec fn operations(cs: Seq<Command>) -> Seq<KVCommand> {
    cs.map_values(|c: Command| c.kv_cmd)
}

/// The answers server `id` owes after applying `cs` to the store `m` in order: one for
/// each command it coordinates, in order, as (client, answer).
pub open spec fn owed_answers(id: NodeId, m: Map<Seq<char>, String>, cs: Seq<Command>) -> Seq<
    (ClientId, ServerMessage),
>
    decreases cs.len(),
{
    if cs.len() == 0 {
        Seq::empty()
    } else {
        let prev = owed_answers(id, m, cs.drop_last());
        let c = cs.last();
        if c.coordinator_id == id {
            prev.push(
                (
                    c.client_id,
                    answer(c.id, kv_read(kv_apply_all(m, operations(cs.drop_last())), c.kv_cmd)),
                ),
            )
        } else {
            prev
        }
    }
}

/// A request of a client to a server.
pub enum ClientMessage {
    /// Append the command with this id to the replicated log.
    Append(CommandId, KVCommand),
}

/// A message between servers.
pub enum ClusterMessage {
    /// A protocol message of the replicated log.
    OmniPaxosMessage(Message<Command>),
    /// The leader's signal that the experiment starts at the given time.
    LeaderStartSignal(Timestamp),
    /// The leader asks the given server for its clock time.
    LeaderTime(NodeId),
    /// A server's clock time, sent back to the leader.
    ClockResponse {
        /// The responding server's time, in nanoseconds since the epoch.
        real_time: u64,
    },
    /// A client request the leader forwards to the other servers.
    ForwardedClientMessage {
        /// The server that answers the client.
        coordinator_id: NodeId,
        /// The client.
        client_id: ClientId,
        /// The request.
        msg: ClientMessage,
    },
    /// A client request a server asks the leader to replicate.
    ClientMessageForLeader {
        /// The server that answers the client.
        coordinator_id: NodeId,
        /// The client.
        client_id: ClientId,
        /// The request.
        msg: ClientMessage,
    },
}

/// What a server does with a message from another server.
pub enum ClusterAction {
    /// Hand the protocol message to the replicated log, then apply what got decided.
    Replicate(Message<Command>),
    /// Relay the start signal to the clients.
    StartClients(Timestamp),
    /// Send this server's clock time to the given server.
    SendTime(NodeId),
    /// Resynchronize the clock to the given time and note when that happened.
    Resync(u64),
    /// Append the command to the log.
    Append(Command),
    /// Append the command to the log and forward the request to the other servers.
    AppendAndForward(Command),
    /// Nothing to do.
    Ignore,
}

/// The command a request of `client_id` coordinated by `coordinator_id` stands for.
pub open spec fn command_of(coordinator_id: NodeId, client_id: ClientId, msg: ClientMessage) -> Command {
    match msg {
        ClientMessage::Append(id, kv_cmd) => Command { client_id, coordinator_id, id, kv_cmd },
    }
}

/// What a server does with `message`: protocol messages go to the log, a start signal is
/// relayed to the clients, a time request is answered to the server it names, a clock
/// response resynchronizes the clock, a forwarded request is appended, and a request for
/// the leader is appended and forwarded only by the leader.
pub open spec fn cluster_action_of(is_leader: bool, message: ClusterMessage) -> ClusterAction {
    match message {
        ClusterMessage::OmniPaxosMessage(m) => ClusterAction::Replicate(m),
        ClusterMessage::LeaderStartSignal(t) => ClusterAction::StartClients(t),
        ClusterMessage::LeaderTime(from) => ClusterAction::SendTime(from),
        ClusterMessage::ClockResponse { real_time } => ClusterAction::Resync(real_time),
        ClusterMessage::ForwardedClientMessage { coordinator_id, client_id, msg } => ClusterAction::Append(
            command_of(coordinator_id, client_id, msg),
        ),
        ClusterMessage::ClientMessageForLeader { coordinator_id, client_id, msg } => if is_leader {
            ClusterAction::AppendAndForward(command_of(coordinator_id, client_id, msg))
        } else {
            ClusterAction::Ignore
        },
    }
}

/// Decides what a server does with one message from another server.
pub fn dispatch_cluster_message(is_leader: bool, message: ClusterMessage) -> (action: ClusterAction)
    ensures
        action == cluster_action_of(is_leader, message),
{
    match message {
        ClusterMessage::OmniPaxosMessage(m) => ClusterAction::Replicate(m),
        ClusterMessage::LeaderStartSignal(t) => ClusterAction::StartClients(t),
        ClusterMessage::LeaderTime(from) => ClusterAction::SendTime(from),
        ClusterMessage::ClockResponse { real_time } => ClusterAction::Resync(real_time),
        ClusterMessage::ForwardedClientMessage { coordinator_id, client_id, msg } => {
            let ClientMessage::Append(id, kv_cmd) = msg;
            ClusterAction::Append(Command { client_id, coordinator_id, id, kv_cmd })
        },
        ClusterMessage::ClientMessageForLeader { coordinator_id, client_id, msg } => {
            if is_leader {
                let ClientMessage::Append(id, kv_cmd) = msg;
                ClusterAction::AppendAndForward(Command { client_id, coordinator_id, id, kv_cmd })
            } else {
                ClusterAction::Ignore
            }
        },
    }
}

/// Drains a batch of messages from other servers, in the order they came: decides the
/// action for each, and tells whether the batch held the leader's start signal.
pub fn dispatch_cluster_messages(is_leader: bool, messages: &mut Vec<(NodeId, ClusterMessage)>) -> (r: (
    Vec<ClusterAction>,
    bool,
))
    ensures
        final(messages)@.len() == 0,
        r.0@.len() == old(messages)@.len(),
        forall|i: int|
            0 <= i < old(messages)@.len() ==> #[trigger] r.0@[i] == cluster_action_of(
                is_leader,
                old(messages)@[i].1,
            ),
        r.1 == exists|i: int| 0 <= i < old(messages)@.len() && #[trigger] old(messages)@[i].1 is LeaderStartSignal,
{
    let ghost orig = messages@;
    let mut actions: Vec<ClusterAction> = Vec::new();
    let mut started = false;
    while messages.len() > 0
        invariant
            actions@.len() <= orig.len(),
            messages@ == orig.skip(actions@.len() as int),
            forall|i: int| 0 <= i < actions@.len() ==> #[trigger] actions@[i] == cluster_action_of(is_leader, orig[i].1),
            started == exists|i: int| 0 <= i < actions@.len() && #[trigger] orig[i].1 is LeaderStartSignal,
        decreases messages@.len(),
    {
        let ghost k = actions@.len() as int;
        let (_from, message) = messages.remove(0);
        assert(orig[k].1 == message);
        let is_start = match &message {
            ClusterMessage::LeaderStartSignal(_) => true,
            _ => false,
        };
        started = started || is_start;
        actions.push(dispatch_cluster_message(is_leader, message));
        assert(messages@ =~= orig.skip(actions@.len() as int));
    }
    (actions, started)
}

/// Whether server `id` is the established leader: the current leader, as reported by the
/// log with whether it is in the accept phase, is `id` in the accept phase.
pub fn leads_in_accept_phase(current_leader: Option<(NodeId, bool)>, id: NodeId) -> (r: bool)
    ensures
        r == (match current_leader {
            Some((leader, accepting)) => leader == id && accepting,
            None => false,
        }),
{
    match current_leader {
        Some((leader, accepting)) => leader == id && accepting,
        None => false,
    }
}

/// Where a client's request goes.
pub enum ClientRoute {
    /// This server leads: it appends the command to the log (and forwards it).
    Append(Command),
    /// This server does not lead: it asks these peers to replicate the request with
    /// itself as coordinator.
    AskLeader(Vec<NodeId>),
}

/// The key-value server: its id, peers, database, decided index and metrics.
pub struct OmniPaxosServer {
    /// The identifier of this server.
    pub id: NodeId,
    /// The other servers.
    pub peers: Vec<NodeId>,
    /// The key-value database.
    pub database: Database,
    /// The index up to which decided commands have been applied.
    pub current_decided_idx: usize,
    /// Counts of the answers given.
    pub metrics: ServerMetrics,
    /// The server's clock.
    pub clock: ClockState,
    /// When the clock was last resynchronized (nanoseconds on the caller's monotonic
    /// clock), if ever.
    pub last_resync: Option<u64>,
    /// The resynchronization period in force, in milliseconds.
    pub sync_interval_ms: u32,
}

impl OmniPaxosServer {
    /// The database contents.
    pub closed spec fn store(&self) -> Map<Seq<char>, String> {
        self.database.contents()
    }

    /// The index up to which decided commands have been applied.
    pub closed spec fn applied_idx(&self) -> usize {
        self.current_decided_idx
    }

    /// Everything but the database, the applied index and the metrics is as in `other`.
    pub open spec fn same_setup(&self, other: &Self) -> bool {
        &&& self.id == other.id
        &&& self.peers == other.peers
        &&& self.clock == other.clock
        &&& self.last_resync == other.last_resync
        &&& self.sync_interval_ms == other.sync_interval_ms
    }

    /// `next` is `self` after learning that the log is decided up to `new_decided_idx`:
    /// when that is beyond what is applied, the applied index moves there and `from` is
    /// the index from which the decided suffix is to be read; otherwise nothing changes.
    pub open spec fn advanced_to(&self, next: &Self, new_decided_idx: usize, from: Option<usize>) -> bool {
        &&& next.same_setup(self)
        &&& next.store() == self.store()
        &&& next.metrics == self.metrics
        &&& if self.applied_idx() < new_decided_idx {
            from == Some(self.applied_idx()) && next.applied_idx() == new_decided_idx
        } else {
            from is None && next.applied_idx() == self.applied_idx()
        }
    }

    /// `next` is `self` after applying the decided `commands` in order and answering
    /// those it coordinates with `out`, counting each answer (on the fast path unless the
    /// clock was resynchronized within `sync_interval` before, per `since_resync`).
    pub open spec fn responded(
        &self,
        next: &Self,
        commands: Seq<Command>,
        since_resync: Option<u64>,
        sync_interval: u64,
        out: Seq<Response>,
    ) -> bool {
        let owed = owed_answers(self.id, self.store(), commands);
        &&& next.same_setup(self)
        &&& next.applied_idx() == self.applied_idx()
        &&& next.store() == kv_apply_all(self.store(), operations(commands))
        &&& out.len() == owed.len()
        &&& forall|i: int|
            0 <= i < out.len() ==> {
                &&& (#[trigger] out[i]).client_id == owed[i].0
                &&& out[i].msg == owed[i].1
                &&& out[i].flush_metrics == ((self.metrics.total_responses + i + 1) % 10 == 0)
            }
        &&& next.metrics.total_responses == self.metrics.total_responses + out.len()
        &&& next.metrics.fast_path_responses == self.metrics.fast_path_responses + (
        if is_fast_path_spec(since_resync, sync_interval) {
            out.len() as int
        } else {
            0int
        })
        &&& (self.metrics.fast_path_responses <= self.metrics.total_responses
            ==> next.metrics.fast_path_responses <= next.metrics.total_responses)
    }

    /// The server of `config`: its peers are the other nodes of the cluster, its database
    /// is empty, nothing is applied, no answer is counted, its clock has never been
    /// resynchronized and reads `now`, and its clock quality is the one in force (the
    /// configured section, else `env_clock`, the environment's, else the defaults).
    pub fn new(config: &OmniPaxosKVConfig, env_clock: Option<ClockConfig>, clock_id: ClockId, now: u64) -> (s:
        OmniPaxosServer)
        requires
            effective_clock(config.local.clock, env_clock).clock_uncertainty_us * 1000 <= u64::MAX,
        ensures
            s.id == config.local.server_id,
            s.peers@ == others(config.cluster.nodes@, config.local.server_id),
            s.store() == Map::<Seq<char>, String>::empty(),
            s.applied_idx() == 0,
            s.metrics.total_responses == 0,
            s.metrics.fast_path_responses == 0,
            s.last_resync is None,
            s.sync_interval_ms == effective_clock(config.local.clock, env_clock).clock_sync_interval_ms,
            s.clock.master() == config.local.server_id,
            s.clock.id() == clock_id,
            s.clock.time() == now,
            s.clock.counter() == 0,
            s.clock.drift() == effective_clock(config.local.clock, env_clock).clock_uncertainty_us
                * 1000,
            s.clock.uncertainty_bound() == s.clock.drift(),
            s.clock.sync_freq() == effective_clock(
                config.local.clock,
                env_clock,
            ).clock_sync_interval_ms,
    {
        let id = config.local.server_id;
        let quality = config.clock_config(env_clock);
        OmniPaxosServer {
            id,
            peers: config.get_peers(id),
            database: Database::new(),
            current_decided_idx: 0,
            metrics: ServerMetrics::default(),
            clock: clock_from_config(id, Some(quality), clock_id, now),
            last_resync: None,
            sync_interval_ms: quality.clock_sync_interval_ms,
        }
    }

    /// Handles a clock response of the leader carrying `real_time`, received at `at`:
    /// the clock is resynchronized to it and the time of resynchronization noted.
    pub fn on_clock_response(&mut self, real_time: u64, at: u64)
        ensures
            old(self).clock.resynced_to(&final(self).clock, real_time),
            final(self).last_resync == Some(at),
            final(self).id == old(self).id,
            final(self).peers == old(self).peers,
            final(self).store() == old(self).store(),
            final(self).applied_idx() == old(self).applied_idx(),
            final(self).metrics == old(self).metrics,
            final(self).sync_interval_ms == old(self).sync_interval_ms,
    {
        self.clock.resync(real_time);
        self.last_resync = Some(at);
    }

    /// The index up to which decided commands have been applied.
    pub fn get_applied_idx(&self) -> (i: usize)
        ensures
            i == self.applied_idx(),
    {
        self.current_decided_idx
    }

    /// Moves the applied index to `new_decided_idx` when the log has been decided
    /// further, and returns the index from which the decided suffix is to be read.
    pub fn advance_decided(&mut self, new_decided_idx: usize) -> (from: Option<usize>)
        ensures
            old(self).advanced_to(&*final(self), new_decided_idx, from),
    {
        if self.current_decided_idx < new_decided_idx {
            let from = self.current_decided_idx;
            self.current_decided_idx = new_decided_idx;
            Some(from)
        } else {
            None
        }
    }

    /// Applies decided commands to the database in order and answers every command this
    /// server coordinates, counting each answer (on the fast path unless the clock was
    /// resynchronized within `sync_interval` before, per `since_resync`).
    pub fn update_database_and_respond(
        &mut self,
        commands: Vec<Command>,
        since_resync: Option<u64>,
        sync_interval: u64,
    ) -> (out: Vec<Response>)
        requires
            old(self).metrics.total_responses + owed_answers(
                old(self).id,
                old(self).store(),
                commands@,
            ).len() <= u64::MAX,
            is_fast_path_spec(since_resync, sync_interval) ==> old(self).metrics.fast_path_responses
                + owed_answers(old(self).id, old(self).store(), commands@).len() <= u64::MAX,
        ensures
            old(self).responded(&*final(self), commands@, since_resync, sync_interval, out@),
    {
        let ghost m0 = self.database.contents();
        let ghost cs = commands@;
        let ghost id = self.id;
        let ghost t0 = self.metrics.total_responses;
        let ghost f0 = self.metrics.fast_path_responses;
        let fast = is_fast_path(since_resync, sync_interval);
        let mut out: Vec<Response> = Vec::new();
        let mut rest = commands;
        let ghost mut done: int = 0;
        proof {
            assert(cs.take(0) =~= Seq::<Command>::empty());
            assert(operations(cs.take(0)) =~= Seq::<KVCommand>::empty());
        }
        while rest.len() > 0
            invariant
                0 <= done <= cs.len(),
                rest@ == cs.skip(done),
                self.id == id,
                self.database.contents() == kv_apply_all(m0, operations(cs.take(done))),
                out@.len() == owed_answers(id, m0, cs.take(done)).len(),
                forall|i: int|
                    0 <= i < out@.len() ==> {
                        &&& (#[trigger] out@[i]).client_id == owed_answers(
                            id,
                            m0,
                            cs.take(done),
                        )[i].0
                        &&& out@[i].msg == owed_answers(id, m0, cs.take(done))[i].1
                        &&& out@[i].flush_metrics == ((t0 + i + 1) % 10 == 0)
                    },
                self.metrics.total_responses == t0 + out@.len(),
                self.metrics.fast_path_responses == f0 + (if fast {
                    out@.len() as int
                } else {
                    0int
                }),
                fast ==> f0 + owed_answers(id, m0, cs).len() <= u64::MAX,
                self.clock == old(self).clock,
                self.last_resync == old(self).last_resync,
                self.sync_interval_ms == old(self).sync_interval_ms,
                fast == is_fast_path_spec(since_resync, sync_interval),
                t0 + owed_answers(id, m0, cs).len() <= u64::MAX,
                self.current_decided_idx == old(self).current_decided_idx,
                self.peers == old(self).peers,
            decreases rest@.len(),
        {
            let command = rest.remove(0);
            proof {
                assert(command == cs[done]);
                let pre = cs.take(done + 1);
                assert(pre.drop_last() =~= cs.take(done));
                assert(pre.last() == command);
                assert(operations(pre).drop_last() =~= operations(cs.take(done)));
                lemma_owed_prefix_len(id, m0, cs, done + 1);
                lemma_owed_prefix_bound(id, m0, cs, done + 1);
            }
            let read = self.database.handle_command(command.kv_cmd);
            if command.coordinator_id == self.id {
                self.metrics.record_response(fast);
                let msg = match read {
                    Some(r) => ServerMessage::Read(command.id, r),
                    None => ServerMessage::Write(command.id),
                };
                let flush_metrics = self.metrics.should_flush();
                out.push(Response { client_id: command.client_id, msg, flush_metrics });
            }
            proof {
                assert(rest@ =~= cs.skip(done + 1));
                done = done + 1;
            }
        }
        proof {
            assert(cs.take(done) =~= cs);
        }
        out
    }

    /// Where the request `cmd_id` of client `from` goes: a leader appends it with
    /// itself as coordinator; any other server asks all its peers.
    pub fn route_client_append(
        &self,
        is_leader: bool,
        from: ClientId,
        cmd_id: CommandId,
        kv_cmd: KVCommand,
    ) -> (route: ClientRoute)
        ensures
            is_leader ==> route == ClientRoute::Append(
                Command { client_id: from, coordinator_id: self.id, id: cmd_id, kv_cmd },
            ),
            !is_leader ==> (route matches ClientRoute::AskLeader(peers) && peers@ == self.peers@),
    {
        if is_leader {
            ClientRoute::Append(Command { client_id: from, coordinator_id: self.id, id: cmd_id, kv_cmd })
        } else {
            ClientRoute::AskLeader(crate::util::copy_vec(&self.peers))
        }
    }
}

/// The spec of [`is_fast_path`].
pub open spec fn is_fast_path_spec(since_resync: Option<u64>, sync_interval: u64) -> bool {
    match since_resync {
        Some(e) => e > sync_interval,
        None => true,
    }
}

/// A prefix of a batch owes no more answers than the whole batch.
proof fn lemma_owed_prefix_bound(id: NodeId, m: Map<Seq<char>, String>, cs: Seq<Command>, n: int)
    requires
        0 <= n <= cs.len(),
    ensures
        owed_answers(id, m, cs.take(n)).len() <= owed_answers(id, m, cs).len(),
    decreases cs.len(),
{
    if n == cs.len() {
        assert(cs.take(n) =~= cs);
    } else {
        lemma_owed_prefix_bound(id, m, cs.drop_last(), n);
        assert(cs.drop_last().take(n) =~= cs.take(n));
    }
}

/// The owed answers of a prefix of `cs` extended by one command.
proof fn lemma_owed_prefix_len(id: NodeId, m: Map<Seq<char>, String>, cs: Seq<Command>, n: int)
    requires
        0 < n <= cs.len(),
    ensures
        owed_answers(id, m, cs.take(n)) == ({
            let prev = owed_answers(id, m, cs.take(n - 1));
            let c = cs[n - 1];
            if c.coordinator_id == id {
                prev.push(
                    (
                        c.client_id,
                        answer(c.id, kv_read(kv_apply_all(m, operations(cs.take(n - 1))), c.kv_cmd)),
                    ),
                )
            } else {
                prev
            }
        }),
        kv_apply_all(m, operations(cs.take(n))) == kv_apply(
            kv_apply_all(m, operations(cs.take(n - 1))),
            cs[n - 1].kv_cmd,
        ),
{
    let pre = cs.take(n);
    assert(pre.drop_last() =~= cs.take(n - 1));
    assert(operations(pre).drop_last() =~= operations(cs.take(n - 1)));
}

/// The clock only affects how answers are counted: two servers in the same state that
/// apply the same decided commands reach the same database and give the same answers to
/// the same clients, whatever the time since their last resynchronization.
pub proof fn answers_independent_of_clock(
    s: OmniPaxosServer,
    a: OmniPaxosServer,
    b: OmniPaxosServer,
    commands: Seq<Command>,
    since_a: Option<u64>,
    since_b: Option<u64>,
    interval_a: u64,
    interval_b: u64,
    out_a: Seq<Response>,
    out_b: Seq<Response>,
)
    requires
        s.responded(&a, commands, since_a, interval_a, out_a),
        s.responded(&b, commands, since_b, interval_b, out_b),
    ensures
        a.store() == b.store(),
        out_a.len() == out_b.len(),
        forall|i: int|
            0 <= i < out_a.len() ==> (#[trigger] out_a[i]).client_id == out_b[i].client_id
                && out_a[i].msg == out_b[i].msg,
        a.metrics.total_responses == b.metrics.total_responses,
{
}

/// The decided log is applied once, in order: if the database holds exactly the
/// decided commands before the applied index, then after learning a decided index and
/// applying the suffix read from the applied index up to it, the database holds exactly
/// the decided commands before the new applied index; when the decided index did not
/// grow, nothing is read or applied.
pub proof fn decided_prefix_stays_applied(
    s0: OmniPaxosServer,
    s1: OmniPaxosServer,
    s2: OmniPaxosServer,
    m0: Map<Seq<char>, String>,
    log: Seq<Command>,
    new_decided_idx: usize,
    from: Option<usize>,
    since_resync: Option<u64>,
    sync_interval: u64,
    out: Seq<Response>,
)
    requires
        s0.applied_idx() <= log.len(),
        new_decided_idx <= log.len(),
        s0.store() == kv_apply_all(m0, operations(log.take(s0.applied_idx() as int))),
        s0.advanced_to(&s1, new_decided_idx, from),
        from is Some ==> s1.responded(
            &s2,
            log.subrange(s0.applied_idx() as int, new_decided_idx as int),
            since_resync,
            sync_interval,
            out,
        ),
        from is None ==> s2 == s1,
    ensures
        s2.applied_idx() == (if s0.applied_idx() < new_decided_idx {
            new_decided_idx
        } else {
            s0.applied_idx()
        }),
        s2.store() == kv_apply_all(m0, operations(log.take(s2.applied_idx() as int))),
{
    if from is Some {
        let a = s0.applied_idx() as int;
        let b = new_decided_idx as int;
        let prefix = operations(log.take(a));
        let suffix = operations(log.subrange(a, b));
        assert(operations(log.take(b)) =~= prefix + suffix);
        apply_all_concat(m0, prefix, suffix);
    }
}

/// Each command a server coordinates is answered once, in the order of the log; commands
/// coordinated by other servers are applied but not answered.
pub proof fn one_answer_per_coordinated_command(id: NodeId, m: Map<Seq<char>, String>, cs: Seq<Command>)
    ensures
        owed_answers(id, m, cs).len() == cs.filter(|c: Command| c.coordinator_id == id).len(),
    decreases cs.len(),
{
    reveal_with_fuel(Seq::<Command>::filter, 1);
    if cs.len() > 0 {
        one_answer_per_coordinated_command(id, m, cs.drop_last());
    }
}

/// A server accepts a request that a peer asks it to replicate only while it leads,
/// with the asking server as coordinator.
pub fn accept_for_leader(
    is_leader: bool,
    coordinator_id: NodeId,
    client_id: ClientId,
    cmd_id: CommandId,
    kv_cmd: KVCommand,
) -> (c: Option<Command>)
    ensures
        is_leader ==> c == Some(Command { client_id, coordinator_id, id: cmd_id, kv_cmd }),
        !is_leader ==> c is None,
{
    if is_leader {
        Some(Command { client_id, coordinator_id, id: cmd_id, kv_cmd })
    } else {
        None
    }
}

/// The clients that receive the start signal: 1 through `num_clients`.
pub fn start_signal_clients(num_clients: usize) -> (ids: Vec<ClientId>)
    requires
        num_clients < u64::MAX,
    ensures
        ids@.len() == num_clients,
        forall|i: int| 0 <= i < num_clients ==> ids@[i] == i + 1,
{
    let mut ids: Vec<ClientId> = Vec::new();
    let n = num_clients as u64;
    let mut c: u64 = 1;
    while c < n + 1
        invariant
            1 <= c <= n + 1,
            n == num_clients,
            n < u64::MAX,
            ids@.len() == c - 1,
            forall|i: int| 0 <= i < ids@.len() ==> ids@[i] == i + 1,
        decreases n + 1 - c,
    {
        ids.push(c);
        c = c + 1;
    }
    ids
}

/// The peer a clock request is sent to: `from` itself when it is one of `peers`.
pub fn peer_for_clock_request(peers: &Vec<NodeId>, from: NodeId) -> (target: Option<NodeId>)
    ensures
        peers@.contains(from) ==> target == Some(from),
        !peers@.contains(from) ==> target is None,
{
    let mut i: usize = 0;
    while i < peers.len()
        invariant
            0 <= i <= peers@.len(),
            forall|j: int| 0 <= j < i ==> peers@[j] != from,
        decreases peers@.len() - i,
    {
        if peers[i] == from {
            return Some(from);
        }
        i = i + 1;
    }
    None
}

/// The clock of server `server_id` for the configured clock quality (the defaults
/// when none is configured): drift and uncertainty bound are the uncertainty in
/// microseconds, and it resynchronizes every configured number of milliseconds.
pub fn clock_from_config(server_id: NodeId, clock: Option<ClockConfig>, id: ClockId, now: u64) -> (c:
    ClockState)
    requires
        (match clock {
            Some(cc) => cc.clock_uncertainty_us,
            None => 10u64,
        }) * 1000 <= u64::MAX,
    ensures
        c.master() == server_id,
        c.id() == id,
        c.time() == now,
        c.counter() == 0,
        c.drift() == (match clock {
            Some(cc) => cc.clock_uncertainty_us,
            None => 10u64,
        }) * 1000,
        c.uncertainty_bound() == c.drift(),
        c.sync_freq() == (match clock {
            Some(cc) => cc.clock_sync_interval_ms,
            None => 1u32,
        }),
{
    let (uncertainty_us, sync_ms) = match clock {
        Some(cc) => (cc.clock_uncertainty_us, cc.clock_sync_interval_ms),
        None => (10u64, 1u32),
    };
    let drift = uncertainty_us * 1000;
    ClockState::new(id, server_id, drift, drift, sync_ms, now)
}

/// `a` is the right (client, answer) pair for the `j`-th command of `cs`, applied in order
/// to the store `m`, at server `id`: the command is one `id` coordinates, the pair goes
/// to its client, a get is answered with a read of the value the key held at that point
/// of the log (none when absent), and a put or delete with a write.
pub open spec fn answers_command(id: NodeId, m: Map<Seq<char>, String>, cs: Seq<Command>, j: int, a: (
    ClientId,
    ServerMessage,
)) -> bool {
    let c = cs[j];
    let store = kv_apply_all(m, operations(cs.take(j)));
    &&& 0 <= j < cs.len()
    &&& c.coordinator_id == id
    &&& a.0 == c.client_id
    &&& match c.kv_cmd {
        KVCommand::Get(k) => a.1 == ServerMessage::Read(
            c.id,
            if store.contains_key(k@) {
                Some(store[k@])
            } else {
                None
            },
        ),
        _ => a.1 == ServerMessage::Write(c.id),
    }
}

/// How many commands of `cs` server `id` coordinates.
pub open spec fn coordinated_count(id: NodeId, cs: Seq<Command>) -> nat
    decreases cs.len(),
{
    if cs.len() == 0 {
        0
    } else {
        coordinated_count(id, cs.drop_last()) + if cs.last().coordinator_id == id {
            1nat
        } else {
            0nat
        }
    }
}

/// The position in `cs` of the `i`-th command that server `id` coordinates.
pub open spec fn coordinated_position(id: NodeId, cs: Seq<Command>, i: int) -> int
    decreases cs.len(),
{
    if cs.len() == 0 {
        0
    } else if cs.last().coordinator_id == id && i == coordinated_count(id, cs.drop_last()) {
        cs.len() - 1
    } else {
        coordinated_position(id, cs.drop_last(), i)
    }
}

/// A right answer for a command of a batch stays right when the batch is extended.
proof fn lemma_answers_command_extend(
    id: NodeId,
    m: Map<Seq<char>, String>,
    cs: Seq<Command>,
    j: int,
    a: (ClientId, ServerMessage),
)
    requires
        cs.len() > 0,
        answers_command(id, m, cs.drop_last(), j, a),
    ensures
        answers_command(id, m, cs, j, a),
{
    assert(cs.drop_last().take(j) =~= cs.take(j));
    assert(cs.drop_last()[j] == cs[j]);
}

/// The answers owed for a batch extend those owed for the batch without its last
/// command, by the right answer to that command when the server coordinates it.
proof fn lemma_owed_step(id: NodeId, m: Map<Seq<char>, String>, cs: Seq<Command>)
    requires
        cs.len() > 0,
    ensures
        cs.last().coordinator_id == id ==> owed_answers(id, m, cs).len() == owed_answers(
            id,
            m,
            cs.drop_last(),
        ).len() + 1 && answers_command(
            id,
            m,
            cs,
            cs.len() - 1,
            owed_answers(id, m, cs)[owed_answers(id, m, cs.drop_last()).len() as int],
        ),
        cs.last().coordinator_id != id ==> owed_answers(id, m, cs) == owed_answers(id, m, cs.drop_last()),
        forall|i: int|
            0 <= i < owed_answers(id, m, cs.drop_last()).len() ==> #[trigger] owed_answers(id, m, cs)[i]
                == owed_answers(id, m, cs.drop_last())[i],
{
    assert(cs.take(cs.len() - 1) =~= cs.drop_last());
}

/// The `i`-th answer a server owes for a batch is the right answer to the `i`-th
/// command of the batch it coordinates, and it owes one answer per such command.
pub proof fn owed_answers_are_right(id: NodeId, m: Map<Seq<char>, String>, cs: Seq<Command>)
    ensures
        owed_answers(id, m, cs).len() == coordinated_count(id, cs),
        forall|i: int|
            0 <= i < owed_answers(id, m, cs).len() ==> answers_command(
                id,
                m,
                cs,
                coordinated_position(id, cs, i),
                #[trigger] owed_answers(id, m, cs)[i],
            ),
    decreases cs.len(),
{
    if cs.len() > 0 {
        let rest = cs.drop_last();
        owed_answers_are_right(id, m, rest);
        lemma_owed_step(id, m, cs);
        let prev = owed_answers(id, m, rest);
        let owed = owed_answers(id, m, cs);
        assert forall|i: int| 0 <= i < owed.len() implies answers_command(
            id,
            m,
            cs,
            coordinated_position(id, cs, i),
            #[trigger] owed[i],
        ) by {
            if i < prev.len() {
                assert(owed[i] == prev[i]);
                lemma_answers_command_extend(id, m, cs, coordinated_position(id, rest, i), prev[i]);
            }
        }
    }
}

/// Each command a server coordinates gets the right answer, at the position given by the
/// number of commands it coordinates before it: answers come in the order of the log.
pub proof fn coordinated_commands_owe_right_answers(id: NodeId, m: Map<Seq<char>, String>, cs: Seq<Command>)
    ensures
        forall|j: int|
            0 <= j < cs.len() && (#[trigger] cs[j]).coordinator_id == id ==> {
                &&& coordinated_count(id, cs.take(j)) < owed_answers(id, m, cs).len()
                &&& answers_command(id, m, cs, j, owed_answers(id, m, cs)[coordinated_count(id, cs.take(j)) as int])
            },
    decreases cs.len(),
{
    if cs.len() > 0 {
        let rest = cs.drop_last();
        coordinated_commands_owe_right_answers(id, m, rest);
        owed_answers_are_right(id, m, rest);
        owed_answers_are_right(id, m, cs);
        lemma_owed_step(id, m, cs);
        let prev = owed_answers(id, m, rest);
        let owed = owed_answers(id, m, cs);
        assert forall|j: int|
            0 <= j < cs.len() && (#[trigger] cs[j]).coordinator_id == id implies {
                &&& coordinated_count(id, cs.take(j)) < owed.len()
                &&& answers_command(id, m, cs, j, owed[coordinated_count(id, cs.take(j)) as int])
            } by {
            if j < cs.len() - 1 {
                assert(rest[j] == cs[j]);
                assert(rest.take(j) =~= cs.take(j));
                let k = coordinated_count(id, cs.take(j)) as int;
                assert(owed[k] == prev[k]);
                lemma_answers_command_extend(id, m, cs, j, prev[k]);
            } else {
                assert(cs.take(j) =~= rest);
            }
        }
    }
}

/// What a server answers after applying a decided batch: its `i`-th answer is the right
/// answer to the `i`-th command of the batch it coordinates (to that command's client, a
/// read of the key's value at that point of the log for a get, a write for a put or a
/// delete), and every command it coordinates is answered so, in log order.
pub proof fn coordinated_commands_answered_right(
    s: OmniPaxosServer,
    next: OmniPaxosServer,
    commands: Seq<Command>,
    since_resync: Option<u64>,
    sync_interval: u64,
    out: Seq<Response>,
)
    requires
        s.responded(&next, commands, since_resync, sync_interval, out),
    ensures
        out.len() == coordinated_count(s.id, commands),
        forall|i: int|
            0 <= i < out.len() ==> answers_command(
                s.id,
                s.store(),
                commands,
                coordinated_position(s.id, commands, i),
                ((#[trigger] out[i]).client_id, out[i].msg),
            ),
        forall|j: int|
            0 <= j < commands.len() && (#[trigger] commands[j]).coordinator_id == s.id ==> {
                let i = coordinated_count(s.id, commands.take(j)) as int;
                &&& i < out.len()
                &&& answers_command(s.id, s.store(), commands, j, (out[i].client_id, out[i].msg))
            },
{
    let owed = owed_answers(s.id, s.store(), commands);
    owed_answers_are_right(s.id, s.store(), commands);
    coordinated_commands_owe_right_answers(s.id, s.store(), commands);
    assert forall|i: int| 0 <= i < out.len() implies answers_command(
        s.id,
        s.store(),
        commands,
        coordinated_position(s.id, commands, i),
        ((#[trigger] out[i]).client_id, out[i].msg),
    ) by {
        assert((out[i].client_id, out[i].msg) == owed[i]);
    }
    assert forall|j: int|
        0 <= j < commands.len() && (#[trigger] commands[j]).coordinator_id == s.id implies {
            let i = coordinated_count(s.id, commands.take(j)) as int;
            &&& i < out.len()
            &&& answers_command(s.id, s.store(), commands, j, (out[i].client_id, out[i].msg))
        } by {
        let i = coordinated_count(s.id, commands.take(j)) as int;
        assert((out[i].client_id, out[i].msg) == owed[i]);
    }
}

/// A protocol message from another server is always handed to the replicated log,
/// whether or not this server leads.
pub proof fn protocol_messages_replicated(is_leader: bool, m: Message<Command>)
    ensures
        cluster_action_of(is_leader, ClusterMessage::OmniPaxosMessage(m)) == ClusterAction::Replicate(m),
{
}

/// Leadership changes the action only for a request meant for the leader, and the only
/// message dropped is such a request at a server that does not lead; every other
/// message keeps its payload in its action.
pub proof fn dispatch_depends_on_leadership_only_for_leader_requests(is_leader: bool, message: ClusterMessage)
    ensures
        !(message is ClientMessageForLeader) ==> cluster_action_of(true, message) == cluster_action_of(
            false,
            message,
        ),
        (cluster_action_of(is_leader, message) is Ignore) <==> (!is_leader
            && message is ClientMessageForLeader),
        message matches ClusterMessage::LeaderStartSignal(t) ==> cluster_action_of(is_leader, message)
            == ClusterAction::StartClients(t),
        message matches ClusterMessage::LeaderTime(from) ==> cluster_action_of(is_leader, message)
            == ClusterAction::SendTime(from),
        message matches ClusterMessage::ClockResponse { real_time } ==> cluster_action_of(is_leader, message)
            == ClusterAction::Resync(real_time),
        message matches ClusterMessage::ForwardedClientMessage { coordinator_id, client_id, msg: ClientMessage::Append(id, kv_cmd) }
            ==> cluster_action_of(is_leader, message) == ClusterAction::Append(
            Command { client_id, coordinator_id, id, kv_cmd },
        ),
        is_leader ==> (message matches ClusterMessage::ClientMessageForLeader { coordinator_id, client_id, msg: ClientMessage::Append(id, kv_cmd) }
            ==> cluster_action_of(is_leader, message) == ClusterAction::AppendAndForward(
            Command { client_id, coordinator_id, id, kv_cmd },
        )),
{
}

} // verus!

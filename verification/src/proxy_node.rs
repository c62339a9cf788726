//! The stateless proxy between clients and replicas: its configuration, and the
//! database in which it records the acknowledgements replicas send for each
//! history hash, from which it decides when an answer may be released.

use vstd::prelude::*;
use std::collections::HashMap;
use crate::util::{ClientId, NodeId};

verus! {

broadcast use vstd::std_specs::hash::group_hash_axioms;

/// A speculative result: whether the replica speculated, whether the command yields a
/// result, and the result.
pub type Speculation = Option<Option<Option<String>>>;

/// What the proxy records for a history hash: a count of acknowledgements and the
/// speculative result.
pub type AckRecord = (usize, Speculation);

/// A command on the proxy database.
pub enum PRCommand {
    /// Records `record` under the hash.
    Put(u64, AckRecord),
    /// Forgets the hash.
    Delete(u64),
    /// Reads what is recorded under the hash.
    Get(u64),
}

/// The records after running `command` on `m`.
pub open spec fn pr_apply(m: Map<u64, AckRecord>, command: PRCommand) -> Map<u64, AckRecord> {
    match command {
        PRCommand::Put(key, val) => m.insert(key, val),
        PRCommand::Delete(key) => m.remove(key),
        PRCommand::Get(_) => m,
    }
}

/// The records after running the commands of `cs` on `m` in order.
pub open spec fn pr_apply_all(m: Map<u64, AckRecord>, cs: Seq<PRCommand>) -> Map<u64, AckRecord>
    decreases cs.len(),
{
    if cs.len() == 0 {
        m
    } else {
        pr_apply(pr_apply_all(m, cs.drop_last()), cs.last())
    }
}

/// `command` writes or forgets `key`.
pub open spec fn pr_touches(command: PRCommand, key: u64) -> bool {
    match command {
        PRCommand::Put(k, _) => k == key,
        PRCommand::Delete(k) => k == key,
        PRCommand::Get(_) => false,
    }
}

/// Address of a replica as the proxy sees it.
#[derive(Clone, Debug)]
pub struct Nodes {
    /// The replica's server id.
    pub id: NodeId,
    /// Host name or address of the replica.
    pub address: String,
    /// Port the replica listens on for clients.
    pub listening_port: u16,
}

/// Configuration of the proxy.
#[derive(Clone, Debug)]
pub struct ProxyConfig {
    /// Optional location label.
    pub location: Option<String>,
    /// Identifier of the proxy.
    pub proxy_id: u16,
    /// Address the proxy listens on for clients.
    pub listen_address: String,
    /// Port the proxy listens on for clients.
    pub listen_port: u16,
    /// Number of replicas that may fail.
    pub fault_tolerance: usize,
    /// The clients served.
    pub clients: Vec<ClientId>,
    /// The replicas.
    pub nodes: Vec<Nodes>,
}

/// A copy of a speculative result.
pub fn copy_speculation(s: &Speculation) -> (c: Speculation)
    ensures
        c == *s,
{
    match s {
        None => None,
        Some(None) => Some(None),
        Some(Some(None)) => Some(Some(None)),
        Some(Some(Some(v))) => Some(Some(Some(v.clone()))),
    }
}

/// The proxy's record of acknowledgements per history hash.
pub struct Database {
    db: HashMap<u64, AckRecord>,
    /// Number of acknowledgements that make a quorum.
    pub quorum: usize,
}

impl Database {
    /// The records, by history hash.
    pub closed spec fn records(&self) -> Map<u64, AckRecord> {
        self.db@
    }

    /// Number of acknowledgements that make a quorum.
    pub closed spec fn quorum_size(&self) -> usize {
        self.quorum
    }

    /// `next` is `self` after running `command`, which answered `out`: a put records
    /// its value, a delete forgets the hash, a get answers what is recorded.
    pub open spec fn applied(
        &self,
        next: &Self,
        command: PRCommand,
        out: Option<Option<AckRecord>>,
    ) -> bool {
        &&& next.quorum_size() == self.quorum_size()
        &&& next.records() == pr_apply(self.records(), command)
        &&& out == (match command {
            PRCommand::Get(key) => Some(self.records().get(key)),
            _ => None,
        })
    }

    /// An empty database with quorum `q`.
    pub fn new(q: usize) -> (d: Database)
        ensures
            d.records() == Map::<u64, AckRecord>::empty(),
            d.quorum_size() == q,
    {
        Database { db: HashMap::new(), quorum: q }
    }

    /// Runs `command` on the database.
    pub fn handle_command(&mut self, command: PRCommand) -> (out: Option<Option<AckRecord>>)
        ensures
            old(self).applied(&*final(self), command, out),
    {
        match command {
            PRCommand::Put(key, val) => {
                self.db.insert(key, val);
                None
            },
            PRCommand::Delete(key) => {
                self.db.remove(&key);
                None
            },
            PRCommand::Get(key) => {
                let found = match self.db.get(&key) {
                    Some(r) => Some((r.0, copy_speculation(&r.1))),
                    None => None,
                };
                Some(found)
            },
        }
    }

    /// Records an acknowledgement for history hash `hash` with speculative result
    /// `suspect` (as a fresh record with count zero), reads it back, and tells whether
    /// the answer may be released: when the recorded count reaches the quorum and the
    /// replica speculated.
    pub fn on_ack(&mut self, hash: u64, suspect: Speculation) -> (release: bool)
        ensures
            final(self).quorum_size() == old(self).quorum_size(),
            final(self).records() == old(self).records().insert(hash, (0usize, suspect)),
            release == (old(self).quorum_size() == 0 && suspect is Some),
    {
        let _ = self.handle_command(PRCommand::Put(hash, (0, suspect)));
        match self.handle_command(PRCommand::Get(hash)) {
            Some(Some(val)) => val.0 >= self.quorum && val.1.is_some(),
            _ => false,
        }
    }
}

impl ProxyConfig {
    /// Number of replicas that make a quorum: all replicas but those that may fail.
    pub fn quorum(&self) -> (q: usize)
        requires
            self.fault_tolerance <= self.nodes@.len(),
        ensures
            q == self.nodes@.len() - self.fault_tolerance,
    {
        self.nodes.len() - self.fault_tolerance
    }
}

/// The proxy: its configuration and its acknowledgement database.
pub struct Proxy {
    /// The configuration it was started with.
    pub config: ProxyConfig,
    /// The acknowledgement database, with the configured quorum.
    pub db: Database,
}

impl Proxy {
    /// A proxy for `config`, with an empty database whose quorum is the number of
    /// replicas minus the number that may fail.
    pub fn new(config: ProxyConfig) -> (p: Proxy)
        requires
            config.fault_tolerance <= config.nodes@.len(),
        ensures
            p.config == config,
            p.db.quorum_size() == config.nodes@.len() - config.fault_tolerance,
            p.db.records() == Map::<u64, AckRecord>::empty(),
    {
        let q = config.quorum();
        Proxy { config, db: Database::new(q) }
    }
}

/// A read of a hash after a put of it answers the value put.
pub proof fn read_after_put(
    d0: Database,
    d1: Database,
    d2: Database,
    key: u64,
    val: AckRecord,
    out: Option<Option<AckRecord>>,
)
    requires
        d0.applied(&d1, PRCommand::Put(key, val), None),
        d1.applied(&d2, PRCommand::Get(key), out),
    ensures
        out == Some(Some(val)),
        d2.records() == d0.records().insert(key, val),
{
}

/// A read after a history of puts and deletes answers the last value put for the hash
/// when nothing later deletes or overwrites it, and nothing when the last change was a
/// delete.
pub proof fn read_after_history(
    m: Map<u64, AckRecord>,
    cs: Seq<PRCommand>,
    i: int,
    key: u64,
    d: Database,
    next: Database,
    out: Option<Option<AckRecord>>,
)
    requires
        0 <= i < cs.len(),
        pr_touches(cs[i], key),
        forall|j: int| i < j < cs.len() ==> !pr_touches(#[trigger] cs[j], key),
        d.records() == pr_apply_all(m, cs),
        d.applied(&next, PRCommand::Get(key), out),
    ensures
        cs[i] matches PRCommand::Put(_, v) ==> out == Some(Some(v)),
        cs[i] is Delete ==> out == Some(None::<AckRecord>),
{
    lemma_last_touch(m, cs, i, key);
}

proof fn lemma_last_touch(m: Map<u64, AckRecord>, cs: Seq<PRCommand>, i: int, key: u64)
    requires
        0 <= i < cs.len(),
        pr_touches(cs[i], key),
        forall|j: int| i < j < cs.len() ==> !pr_touches(#[trigger] cs[j], key),
    ensures
        cs[i] matches PRCommand::Put(_, v) ==> pr_apply_all(m, cs).get(key) == Some(v),
        cs[i] is Delete ==> pr_apply_all(m, cs).get(key) == None::<AckRecord>,
    decreases cs.len(),
{
    if i < cs.len() - 1 {
        lemma_last_touch(m, cs.drop_last(), i, key);
        assert(!pr_touches(cs[cs.len() - 1], key));
    }
}

/// A read of a hash after a delete of it answers that nothing is recorded.
pub proof fn read_after_delete(
    d0: Database,
    d1: Database,
    d2: Database,
    key: u64,
    out: Option<Option<AckRecord>>,
)
    requires
        d0.applied(&d1, PRCommand::Delete(key), None),
        d1.applied(&d2, PRCommand::Get(key), out),
    ensures
        out == Some(None::<AckRecord>),
{
}

} // verus!

//! The replicated key-value store: the commands clients submit and the database
//! each server applies the decided commands to, in log order.

use vstd::prelude::*;
use vstd::hash_map::StringHashMap;
use crate::util::{ClientId, NodeId};

verus! {

/// Identifier of a command, unique per client.
pub type CommandId = usize;

/// An operation on the key-value store.
pub enum KVCommand {
    /// Sets the key to the value.
    Put(String, String),
    /// Removes the key.
    Delete(String),
    /// Reads the key.
    Get(String),
}

/// A command as it is replicated: the operation with the client that issued it, the
/// server that coordinates the answer, and its id.
pub struct Command {
    /// The client that issued the command.
    pub client_id: ClientId,
    /// The server that answers the client.
    pub coordinator_id: NodeId,
    /// The command's id.
    pub id: CommandId,
    /// The operation.
    pub kv_cmd: KVCommand,
}

/// The store after applying `c` to `m`.
pub open spec fn kv_apply(m: Map<Seq<char>, String>, c: KVCommand) -> Map<Seq<char>, String> {
    match c {
        KVCommand::Put(k, v) => m.insert(k@, v),
        KVCommand::Delete(k) => m.remove(k@),
        KVCommand::Get(_) => m,
    }
}

/// What applying `c` to `m` reads: for a get, the value of the key if it has one; for
/// a put or a delete, nothing.
pub open spec fn kv_read(m: Map<Seq<char>, String>, c: KVCommand) -> Option<Option<String>> {
    match c {
        KVCommand::Get(k) => Some(
            if m.contains_key(k@) {
                Some(m[k@])
            } else {
                None
            },
        ),
        _ => None,
    }
}

/// The store after applying the commands of `cs` to `m` in order.
pub open spec fn kv_apply_all(m: Map<Seq<char>, String>, cs: Seq<KVCommand>) -> Map<
    Seq<char>,
    String,
>
    decreases cs.len(),
{
    if cs.len() == 0 {
        m
    } else {
        kv_apply(kv_apply_all(m, cs.drop_last()), cs.last())
    }
}

/// `c` writes or removes key `k`.
pub open spec fn touches(c: KVCommand, k: Seq<char>) -> bool {
    match c {
        KVCommand::Put(key, _) => key@ == k,
        KVCommand::Delete(key) => key@ == k,
        KVCommand::Get(_) => false,
    }
}

/// A server's key-value database.
pub struct Database {
    db: StringHashMap<String>,
}

impl Database {
    /// The stored values, by key.
    pub closed spec fn contents(&self) -> Map<Seq<char>, String> {
        self.db@
    }

    /// An empty database.
    pub fn new() -> (d: Database)
        ensures
            d.contents() == Map::<Seq<char>, String>::empty(),
    {
        Database { db: StringHashMap::new() }
    }

    /// Applies `command` and returns what it reads: `Some(value)` for a get (with `None`
    /// for a missing key), `None` for a put or a delete.
    pub fn handle_command(&mut self, command: KVCommand) -> (read: Option<Option<String>>)
        ensures
            final(self).contents() == kv_apply(old(self).contents(), command),
            read == kv_read(old(self).contents(), command),
    {
        match command {
            KVCommand::Put(k, v) => {
                self.db.insert(k, v);
                None
            },
            KVCommand::Delete(k) => {
                self.db.remove(k.as_str());
                None
            },
            KVCommand::Get(k) => {
                let found = match self.db.get(k.as_str()) {
                    Some(v) => Some(v.clone()),
                    None => None,
                };
                Some(found)
            },
        }
    }
}

/// Applying two runs of commands one after the other is applying them joined.
pub proof fn apply_all_concat(m: Map<Seq<char>, String>, a: Seq<KVCommand>, b: Seq<KVCommand>)
    ensures
        kv_apply_all(m, a + b) == kv_apply_all(kv_apply_all(m, a), b),
    decreases b.len(),
{
    if b.len() == 0 {
        assert(a + b =~= a);
    } else {
        apply_all_concat(m, a, b.drop_last());
        assert((a + b).drop_last() =~= a + b.drop_last());
        assert((a + b).last() == b.last());
    }
}

/// Last write wins: after applying a sequence of commands in order, a key holds the
/// value of the last put of it when no delete or put of it follows.
pub proof fn last_write_wins(m: Map<Seq<char>, String>, cs: Seq<KVCommand>, i: int, k: String, v: String)
    requires
        0 <= i < cs.len(),
        cs[i] == KVCommand::Put(k, v),
        forall|j: int| i < j < cs.len() ==> !touches(#[trigger] cs[j], k@),
    ensures
        kv_apply_all(m, cs).contains_key(k@),
        kv_apply_all(m, cs)[k@] == v,
    decreases cs.len(),
{
    if i < cs.len() - 1 {
        last_write_wins(m, cs.drop_last(), i, k, v);
        assert(!touches(cs[cs.len() - 1], k@));
    }
}

/// After applying a sequence of commands in order, a key deleted with no later put of it
/// has no value.
pub proof fn deleted_key_stays_absent(m: Map<Seq<char>, String>, cs: Seq<KVCommand>, i: int, k: String)
    requires
        0 <= i < cs.len(),
        cs[i] == KVCommand::Delete(k),
        forall|j: int| i < j < cs.len() ==> !touches(#[trigger] cs[j], k@),
    ensures
        !kv_apply_all(m, cs).contains_key(k@),
    decreases cs.len(),
{
    if i < cs.len() - 1 {
        deleted_key_stays_absent(m, cs.drop_last(), i, k);
        assert(!touches(cs[cs.len() - 1], k@));
    }
}

/// Commands that do not write or remove a key leave its value as it was.
pub proof fn untouched_key_unchanged(m: Map<Seq<char>, String>, cs: Seq<KVCommand>, k: Seq<char>)
    requires
        forall|j: int| 0 <= j < cs.len() ==> !touches(#[trigger] cs[j], k),
    ensures
        kv_apply_all(m, cs).contains_key(k) == m.contains_key(k),
        m.contains_key(k) ==> kv_apply_all(m, cs)[k] == m[k],
    decreases cs.len(),
{
    if cs.len() > 0 {
        untouched_key_unchanged(m, cs.drop_last(), k);
        assert(!touches(cs[cs.len() - 1], k));
    }
}

} // verus!

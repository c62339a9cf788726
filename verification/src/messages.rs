//! Messages exchanged between the servers of the cluster.

use vstd::prelude::*;
use crate::util::{Ballot, LogSync, NodeId};

verus! {

/// Sent by a follower on crash-recovery or dropped messages to request its leader to
/// re-prepare it.
#[derive(Clone, Copy, Debug)]
pub struct PrepareReq {
    /// The current round.
    pub n: Ballot,
}

/// Sent by a follower in response to a prepare of the leader.
#[derive(Clone, Debug)]
pub struct Promise<T> {
    /// The current round.
    pub n: Ballot,
    /// The latest round in which an entry was accepted.
    pub n_accepted: Ballot,
    /// The decided index of this follower.
    pub decided_idx: usize,
    /// The log length of this follower.
    pub accepted_idx: usize,
    /// The log update which the leader applies to its log in order to sync with this
    /// follower (if the follower is more up-to-date).
    pub log_sync: Option<LogSync<T>>,
}

/// The content of a Sequence Paxos message.
#[derive(Clone, Debug)]
pub enum PaxosMsg<T> {
    /// Acknowledgement of an accepted entry: entry id, history hash, speculative result
    /// (outer option: whether the sender speculated; middle: whether the command yields a
    /// result; inner: the result itself), accepted index.
    Ack(usize, u64, Option<Option<Option<String>>>, usize),
    /// Confirmation that an entry is decided at the given accepted index.
    Confirm(T, usize),
    /// A request for the leader's current time, used to resynchronize a clock.
    SyncReq,
    /// A new deadline (nanoseconds since the epoch) for the entry with the given id.
    NewDeadline(usize, u64),
}

/// A Sequence Paxos message together with its sender and receiver.
#[derive(Clone, Debug)]
pub struct PaxosMessage<T> {
    /// Sender of `msg`.
    pub from: NodeId,
    /// Receiver of `msg`.
    pub to: NodeId,
    /// The message content.
    pub msg: PaxosMsg<T>,
}

/// The content of a leader election message.
#[derive(Clone, Debug)]
pub enum HeartbeatMsg {
    /// Requests a reply from all the other servers.
    Request(HeartbeatRequest),
    /// A reply to a request.
    Reply(HeartbeatReply),
}

/// Requests a reply from all the other servers.
#[derive(Clone, Copy, Debug)]
pub struct HeartbeatRequest {
    /// Number of the current round.
    pub round: u32,
}

/// A reply to a heartbeat request.
#[derive(Clone, Copy, Debug)]
pub struct HeartbeatReply {
    /// Number of the current heartbeat round.
    pub round: u32,
    /// Ballot of the replying server.
    pub ballot: Ballot,
    /// Leader this server is following.
    pub leader: Ballot,
    /// Whether the replying server sees no need for a new leader.
    pub happy: bool,
}

/// A leader election message together with its sender and receiver.
#[derive(Clone, Debug)]
pub struct BLEMessage {
    /// Sender of `msg`.
    pub from: NodeId,
    /// Receiver of `msg`.
    pub to: NodeId,
    /// The message content.
    pub msg: HeartbeatMsg,
}

/// A message of the protocol: log replication or leader election.
#[derive(Clone, Debug)]
pub enum Message<T> {
    /// A log replication message.
    SequencePaxos(PaxosMessage<T>),
    /// A leader election message.
    BLE(BLEMessage),
}

impl<T> Message<T> {
    /// The sender recorded in the message.
    pub open spec fn sender(self) -> NodeId {
        match self {
            Message::SequencePaxos(p) => p.from,
            Message::BLE(b) => b.from,
        }
    }

    /// The receiver recorded in the message.
    pub open spec fn receiver(self) -> NodeId {
        match self {
            Message::SequencePaxos(p) => p.to,
            Message::BLE(b) => b.to,
        }
    }

    /// Get the sender id of the message.
    pub fn get_sender(&self) -> (id: NodeId)
        ensures
            id == self.sender(),
    {
        match self {
            Message::SequencePaxos(p) => p.from,
            Message::BLE(b) => b.from,
        }
    }

    /// Get the receiver id of the message.
    pub fn get_receiver(&self) -> (id: NodeId)
        ensures
            id == self.receiver(),
    {
        match self {
            Message::SequencePaxos(p) => p.to,
            Message::BLE(b) => b.to,
        }
    }
}

} // verus!

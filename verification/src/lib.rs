//! Verified core of a clock-assisted OmniPaxos key-value service.
//!
//! The library holds the decisions of the replicated service as plain state
//! machines over integers and vectors: the simulated replica clock with its
//! deadline queue, the deadline-ordered request buffer, the Sequence Paxos
//! role/phase logic, the proxy's acknowledgement database, and the server's
//! configuration, metrics and routing rules.  Times are nanoseconds since the
//! UNIX epoch and durations are nanoseconds, both as `u64`.

pub mod util;
pub mod coin;
pub mod messages;
pub mod clock;
pub mod buffers;
pub mod sequence_paxos;
pub mod proxy_node;
pub mod kv_store;
pub mod kv_clock;
pub mod kv_configs;
pub mod kv_server;

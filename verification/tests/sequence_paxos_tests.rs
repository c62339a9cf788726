use omnipaxos_clock::messages::{Message, PaxosMessage, PaxosMsg};
use omnipaxos_clock::sequence_paxos::{
    LogSyncPlan, Phase, ProposeErr, Role, SequencePaxos, SequencePaxosConfig, StoredState,
};
use omnipaxos_clock::util::{
    Ballot, ClusterConfig, FlexibleQuorum, LeaderState, OmniPaxosConfig, Quorum, ServerConfig,
    StopSign,
};

fn config(pid: u64, nodes: Vec<u64>, fq: Option<FlexibleQuorum>) -> SequencePaxosConfig {
    SequencePaxosConfig::from(OmniPaxosConfig {
        cluster_config: ClusterConfig { configuration_id: 1, nodes, flexible_quorum: fq },
        server_config: ServerConfig { pid, ..Default::default() },
    })
}

fn fresh() -> StoredState {
    StoredState { promise: None, decided_idx: 0, stopsign: None, stopsign_decided: false }
}

fn replica(pid: u64) -> SequencePaxos<u32> {
    SequencePaxos::with(config(pid, vec![1, 2, 3], None), fresh())
}

#[test]
fn config_peers_exclude_self() {
    let c = config(2, vec![1, 2, 3], None);
    assert_eq!(c.pid, 2);
    assert_eq!(c.peers, vec![1, 3]);
    assert_eq!(c.batch_size, 1);
    assert_eq!(c.buffer_size, 100000);
}

#[test]
fn fresh_replica_is_idle_follower() {
    let sp = replica(1);
    assert_eq!(*sp.get_state(), (Role::Follower, Phase::Unset));
    assert_eq!(sp.get_promise(), Ballot::default());
    assert_eq!(
        *sp.get_leader_state(),
        LeaderState { n_leader: Ballot::default(), max_pid: 3, quorum: Quorum::Majority(2) }
    );
}

#[test]
fn recovered_promise_starts_recovery() {
    let b = Ballot::with(1, 4, 0, 3);
    let stored = StoredState { promise: Some(b), ..fresh() };
    let fq = FlexibleQuorum { read_quorum_size: 3, write_quorum_size: 2 };
    let sp: SequencePaxos<u32> = SequencePaxos::with(config(5, vec![5, 2, 9, 4], Some(fq)), stored);
    assert_eq!(*sp.get_state(), (Role::Follower, Phase::Recover));
    assert_eq!(sp.get_promise(), b);
    assert_eq!(sp.get_current_leader(), 3);
    assert_eq!(sp.get_leader_state().max_pid, 9);
    assert_eq!(sp.get_leader_state().quorum, Quorum::Flexible(fq));
}

#[test]
fn elected_with_own_ballot_becomes_leader() {
    let mut sp = replica(1);
    let n = Ballot::with(1, 1, 0, 1);
    sp.handle_leader(n);
    assert_eq!(*sp.get_state(), (Role::Leader, Phase::Prepare));
    assert_eq!(sp.get_promise(), n);
    assert_eq!(sp.get_leader_state().n_leader, n);
}

#[test]
fn other_leader_makes_follower_and_stale_ballot_is_ignored() {
    let mut sp = replica(1);
    let mine = Ballot::with(1, 2, 0, 1);
    sp.handle_leader(mine);
    sp.handle_leader(Ballot::with(1, 1, 0, 2));
    assert_eq!(*sp.get_state(), (Role::Leader, Phase::Prepare));
    sp.handle_leader(Ballot::with(1, 3, 0, 2));
    assert_eq!(*sp.get_state(), (Role::Follower, Phase::Prepare));
    assert_eq!(sp.get_promise(), mine);
}

#[test]
fn reconnect_to_leader_recovers() {
    let b = Ballot::with(1, 4, 0, 3);
    let mut sp: SequencePaxos<u32> =
        SequencePaxos::with(config(1, vec![1, 2, 3], None), StoredState { promise: Some(b), ..fresh() });
    sp.handle_leader(Ballot::with(1, 9, 0, 2));
    assert_eq!(*sp.get_state(), (Role::Follower, Phase::Recover));
    let mut sp = replica(1);
    sp.reconnected(1);
    assert_eq!(*sp.get_state(), (Role::Follower, Phase::Unset));
    sp.reconnected(0);
    assert_eq!(*sp.get_state(), (Role::Follower, Phase::Recover));
    let mut sp = replica(1);
    sp.reconnected(2);
    assert_eq!(*sp.get_state(), (Role::Follower, Phase::Unset));
}

#[test]
fn append_reports_leadership() {
    let mut sp = replica(1);
    let p = sp.append(7, 42, |_: &u32| panic!("followers do not speculate")).ok().unwrap();
    assert_eq!((p.proxy, p.entry, p.im_leader, p.speculation), (7, 42, false, None));
    sp.handle_leader(Ballot::with(1, 1, 0, 1));
    let p = sp.append(7, 43, |e: &u32| Some(Some(e.to_string()))).ok().unwrap();
    assert!(p.im_leader);
    assert_eq!(p.speculation, Some(Some(Some("43".to_string()))));
}

#[test]
fn stopped_replica_refuses_proposals() {
    let ss = StopSign {
        next_config: ClusterConfig { configuration_id: 2, nodes: vec![1, 2], flexible_quorum: None },
        metadata: Some(vec![1, 2, 3]),
    };
    let stored = StoredState { stopsign: Some(ss), stopsign_decided: false, ..fresh() };
    let mut sp: SequencePaxos<u32> = SequencePaxos::with(config(1, vec![1, 2, 3], None), stored);
    assert!(sp.accepted_reconfiguration());
    assert!(sp.is_reconfigured().is_none());
    assert!(matches!(sp.append(1, 5, |_: &u32| None), Err(ProposeErr::PendingReconfigEntry(5))));
    let cfg = ClusterConfig { configuration_id: 3, nodes: vec![4], flexible_quorum: None };
    assert!(matches!(sp.reconfigure(cfg, None), Err(ProposeErr::PendingReconfigConfig(_, None))));
}

#[test]
fn decided_stopsign_is_reported() {
    let ss = StopSign {
        next_config: ClusterConfig { configuration_id: 2, nodes: vec![1, 2], flexible_quorum: None },
        metadata: None,
    };
    let stored = StoredState { stopsign: Some(ss), stopsign_decided: true, ..fresh() };
    let sp: SequencePaxos<u32> = SequencePaxos::with(config(1, vec![1, 2, 3], None), stored);
    let got = sp.is_reconfigured().unwrap();
    assert_eq!(got.next_config.configuration_id, 2);
    assert_eq!(got.next_config.nodes, vec![1, 2]);
}

#[test]
fn reconfigure_accepted_when_running() {
    let mut sp = replica(1);
    let cfg = ClusterConfig { configuration_id: 3, nodes: vec![4], flexible_quorum: None };
    assert!(sp.reconfigure(cfg, Some(vec![9])).is_ok());
}

#[test]
fn invalid_reconfiguration_is_refused() {
    let mut sp = replica(1);
    let empty = ClusterConfig { configuration_id: 3, nodes: vec![], flexible_quorum: None };
    assert!(matches!(sp.reconfigure(empty, None), Err(ProposeErr::InvalidConfig(_, None))));
    let disjoint = ClusterConfig {
        configuration_id: 3,
        nodes: vec![1, 2, 3, 4],
        flexible_quorum: Some(FlexibleQuorum { read_quorum_size: 2, write_quorum_size: 2 }),
    };
    assert!(matches!(sp.reconfigure(disjoint, Some(vec![1])), Err(ProposeErr::InvalidConfig(_, Some(_)))));
    let flexible = ClusterConfig {
        configuration_id: 3,
        nodes: vec![1, 2, 3, 4],
        flexible_quorum: Some(FlexibleQuorum { read_quorum_size: 3, write_quorum_size: 2 }),
    };
    assert!(sp.reconfigure(flexible, None).is_ok());
}

#[test]
fn one_node_cluster_is_accepted() {
    let sp: SequencePaxos<u32> = SequencePaxos::with(config(1, vec![1], None), fresh());
    assert_eq!(sp.get_leader_state().max_pid, 1);
    assert_eq!(sp.get_leader_state().quorum, Quorum::Majority(1));
    assert_eq!(*sp.get_state(), (Role::Follower, Phase::Unset));
}

#[test]
fn deadline_reported_only_when_buffer_gives_one() {
    let mut sp = replica(1);
    sp.report_deadline(3, None);
    let mut buffer = Vec::new();
    sp.take_outgoing_msgs(&mut buffer);
    assert!(buffer.is_empty());
    sp.report_deadline(3, Some(77));
    sp.take_outgoing_msgs(&mut buffer);
    assert_eq!(buffer.iter().map(|m| m.get_receiver()).collect::<Vec<_>>(), vec![2, 3]);
}

#[test]
fn confirm_sets_decided_and_follower_executes() {
    let mut sp = replica(2);
    let m = PaxosMessage { from: 1, to: 2, msg: PaxosMsg::Confirm(11u32, 4) };
    assert_eq!(sp.handle(m), Some(11));
    assert_eq!(sp.get_decided_idx(), 4);
    sp.handle_leader(Ballot::with(1, 1, 0, 2));
    let m = PaxosMessage { from: 1, to: 2, msg: PaxosMsg::Confirm(12u32, 5) };
    assert_eq!(sp.handle(m), None);
    assert_eq!(sp.get_decided_idx(), 5);
    let m = PaxosMessage { from: 1, to: 2, msg: PaxosMsg::Ack(1, 2, None, 9) };
    assert_eq!(sp.handle(m), None);
    assert_eq!(sp.get_decided_idx(), 5);
}

#[test]
fn outgoing_messages_are_appended_not_dropped() {
    let mut sp = replica(1);
    sp.announce_new_deadline(4, 1_000);
    sp.acknowledge(9, 4, 77, Some(Some(None)), 3);
    let keep: Message<u32> = Message::SequencePaxos(PaxosMessage { from: 0, to: 0, msg: PaxosMsg::SyncReq });
    let mut buffer = vec![keep];
    sp.take_outgoing_msgs(&mut buffer);
    assert_eq!(buffer.len(), 4);
    assert_eq!(buffer[0].get_receiver(), 0);
    assert_eq!(buffer[1].get_receiver(), 2);
    assert_eq!(buffer[2].get_receiver(), 3);
    assert_eq!(buffer[3].get_receiver(), 9);
    match &buffer[1] {
        Message::SequencePaxos(PaxosMessage { msg: PaxosMsg::NewDeadline(id, d), .. }) => {
            assert_eq!((*id, *d), (4, 1_000))
        }
        _ => panic!("expected a new deadline"),
    }
    match &buffer[3] {
        Message::SequencePaxos(PaxosMessage { msg: PaxosMsg::Ack(id, h, s, i), .. }) => {
            assert_eq!((*id, *h, s.clone(), *i), (4, 77, Some(Some(None)), 3))
        }
        _ => panic!("expected an ack"),
    }
    let mut empty = Vec::new();
    sp.take_outgoing_msgs(&mut empty);
    assert!(empty.is_empty());
}

#[test]
fn empty_buffer_takes_all_messages() {
    let mut sp = replica(3);
    sp.announce_new_deadline(1, 2);
    let mut buffer = Vec::new();
    sp.take_outgoing_msgs(&mut buffer);
    assert_eq!(buffer.iter().map(|m| m.get_receiver()).collect::<Vec<_>>(), vec![1, 2]);
    assert!(buffer.iter().all(|m| m.get_sender() == 3));
}

#[test]
fn become_follower_keeps_phase() {
    let mut sp = replica(1);
    sp.handle_leader(Ballot::with(1, 1, 0, 1));
    sp.become_follower();
    assert_eq!(*sp.get_state(), (Role::Follower, Phase::Prepare));
}

fn only_ack(sp: &mut SequencePaxos<u32>) -> (u64, u64, usize, u64, Option<Option<Option<String>>>, usize) {
    let mut buffer = Vec::new();
    sp.take_outgoing_msgs(&mut buffer);
    assert_eq!(buffer.len(), 1);
    match buffer.pop() {
        Some(Message::SequencePaxos(PaxosMessage { from, to, msg: PaxosMsg::Ack(id, h, s, i) })) => {
            (from, to, id, h, s, i)
        }
        _ => panic!("expected an ack"),
    }
}

#[test]
fn leader_ack_carries_its_speculation() {
    let mut sp = replica(1);
    sp.handle_leader(Ballot::with(1, 1, 0, 1));
    let p = sp.append(7, 43, |e: &u32| Some(Some(format!("v{e}")))).ok().unwrap();
    sp.acknowledge_proposal(&p, 12, 99, 5);
    assert_eq!(only_ack(&mut sp), (1, 7, 12, 99, Some(Some(Some("v43".to_string()))), 5));
}

#[test]
fn follower_ack_carries_no_speculation() {
    let mut sp = replica(2);
    let p = sp.append(8, 44, |_: &u32| panic!("followers do not speculate")).ok().unwrap();
    sp.acknowledge_proposal(&p, 3, 0, 1);
    assert_eq!(only_ack(&mut sp), (2, 8, 3, 0, None, 1));
}

#[test]
fn log_sync_uses_snapshot_past_common_prefix() {
    let sp: SequencePaxos<u32> =
        SequencePaxos::with(config(1, vec![1, 2, 3], None), StoredState { decided_idx: 10, ..fresh() });
    assert_eq!(sp.plan_log_sync(true, 4, 2), LogSyncPlan::Snapshot { diff_from: 2, suffix_from: 10 });
    assert_eq!(sp.plan_log_sync(false, 4, 2), LogSyncPlan::Suffix { from: 4, sync_idx: 4 });
    assert_eq!(sp.plan_log_sync(true, 10, 2), LogSyncPlan::Suffix { from: 10, sync_idx: 10 });
    assert_eq!(sp.plan_log_sync(true, 12, 2), LogSyncPlan::Suffix { from: 12, sync_idx: 12 });
}

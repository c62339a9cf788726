use omnipaxos_clock::kv_clock::ClockState;
use omnipaxos_clock::kv_configs::{
    default_clock_sync_interval_ms, default_clock_uncertainty_us, parse_decimal_u32,
    parse_decimal_u64, ClockConfig, ClusterConfig, LocalConfig, OmniPaxosKVConfig,
};
use omnipaxos_clock::kv_server::{
    accept_for_leader, clock_from_config, is_fast_path, peer_for_clock_request,
    start_signal_clients, ClientRoute, OmniPaxosServer, ServerMessage, ServerMetrics,
};
use omnipaxos_clock::kv_server::{
    dispatch_cluster_message, dispatch_cluster_messages, leads_in_accept_phase, ClientMessage, ClusterAction, ClusterMessage,
};
use omnipaxos_clock::kv_store::{Command, Database, KVCommand};
use omnipaxos_clock::util::{FlexibleQuorum, OmniPaxosConfig};

fn put(id: usize, k: &str, v: &str, coordinator: u64) -> Command {
    Command {
        client_id: 1,
        coordinator_id: coordinator,
        id,
        kv_cmd: KVCommand::Put(k.to_string(), v.to_string()),
    }
}

fn get(id: usize, k: &str, coordinator: u64) -> Command {
    Command { client_id: 2, coordinator_id: coordinator, id, kv_cmd: KVCommand::Get(k.to_string()) }
}

fn server(id: u64, peers: &[u64]) -> OmniPaxosServer {
    let mut cfg = kv_config(None);
    cfg.local.server_id = id;
    let mut nodes = vec![id];
    nodes.extend_from_slice(peers);
    cfg.cluster.nodes = nodes;
    OmniPaxosServer::new(&cfg, None, 1, 0)
}

fn kv_config(clock: Option<ClockConfig>) -> OmniPaxosKVConfig {
    OmniPaxosKVConfig {
        local: LocalConfig {
            location: None,
            server_id: 2,
            listen_address: "0.0.0.0".to_string(),
            listen_port: 8000,
            num_clients: 3,
            output_filepath: "out.json".to_string(),
            clock,
        },
        cluster: ClusterConfig {
            nodes: vec![1, 2, 3],
            node_addrs: vec!["a".to_string(), "b".to_string(), "c".to_string()],
            initial_leader: 1,
            initial_flexible_quorum: Some(FlexibleQuorum { read_quorum_size: 2, write_quorum_size: 2 }),
        },
    }
}

#[test]
fn database_last_write_wins_per_key() {
    let mut db = Database::new();
    for (k, v) in [("a", "1"), ("b", "1"), ("a", "2"), ("a", "3"), ("b", "2")] {
        assert_eq!(db.handle_command(KVCommand::Put(k.to_string(), v.to_string())), None);
    }
    assert_eq!(db.handle_command(KVCommand::Get("a".to_string())), Some(Some("3".to_string())));
    assert_eq!(db.handle_command(KVCommand::Get("b".to_string())), Some(Some("2".to_string())));
    assert_eq!(db.handle_command(KVCommand::Delete("a".to_string())), None);
    assert_eq!(db.handle_command(KVCommand::Get("a".to_string())), Some(None));
}

#[test]
fn server_answers_only_its_own_commands() {
    let mut s = server(1, &[2, 3]);
    let cmds = vec![put(0, "x", "1", 1), put(1, "y", "a", 2), put(2, "x", "2", 1), get(3, "x", 1), get(4, "y", 2)];
    let out = s.update_database_and_respond(cmds, None, 5);
    assert_eq!(out.len(), 3);
    assert!(matches!(out[0].msg, ServerMessage::Write(0)));
    assert!(matches!(out[1].msg, ServerMessage::Write(2)));
    match &out[2].msg {
        ServerMessage::Read(3, Some(v)) => assert_eq!(v, "2"),
        _ => panic!("expected a read of x"),
    }
    assert_eq!(out[2].client_id, 2);
    assert_eq!(s.metrics.total_responses, 3);
    assert_eq!(s.metrics.fast_path_responses, 3);
    let mut read_y = s.database.handle_command(KVCommand::Get("y".to_string()));
    assert_eq!(read_y.take(), Some(Some("a".to_string())));
}

#[test]
fn recent_resync_is_slow_path() {
    let mut s = server(1, &[]);
    let out = s.update_database_and_respond(vec![put(0, "k", "v", 1)], Some(2), 5);
    assert_eq!(out.len(), 1);
    assert_eq!(s.metrics.total_responses, 1);
    assert_eq!(s.metrics.fast_path_responses, 0);
    let out = s.update_database_and_respond(vec![put(1, "k", "w", 1)], Some(6), 5);
    assert_eq!(out.len(), 1);
    assert_eq!(s.metrics.fast_path_responses, 1);
}

#[test]
fn metrics_flush_every_tenth_answer() {
    let mut s = server(1, &[]);
    let cmds: Vec<Command> = (0..12).map(|i| put(i, "k", "v", 1)).collect();
    let out = s.update_database_and_respond(cmds, None, 1);
    let flushes: Vec<bool> = out.iter().map(|r| r.flush_metrics).collect();
    let mut expected = vec![false; 12];
    expected[9] = true;
    assert_eq!(flushes, expected);
    let mut m = ServerMetrics::default();
    assert!(m.should_flush());
    m.record_response(false);
    assert!(!m.should_flush());
    assert_eq!((m.total_responses, m.fast_path_responses), (1, 0));
}

#[test]
fn fast_path_rule() {
    assert!(is_fast_path(None, 1));
    assert!(is_fast_path(Some(2), 1));
    assert!(!is_fast_path(Some(1), 1));
}

#[test]
fn decided_index_only_moves_forward() {
    let mut s = server(1, &[]);
    assert_eq!(s.advance_decided(0), None);
    assert_eq!(s.advance_decided(4), Some(0));
    assert_eq!(s.advance_decided(3), None);
    assert_eq!(s.advance_decided(6), Some(4));
    assert_eq!(s.get_applied_idx(), 6);
}

#[test]
fn client_requests_route_by_leadership() {
    let s = server(4, &[1, 2]);
    match s.route_client_append(true, 9, 3, KVCommand::Delete("k".to_string())) {
        ClientRoute::Append(c) => assert_eq!((c.client_id, c.coordinator_id, c.id), (9, 4, 3)),
        _ => panic!("leader appends"),
    }
    match s.route_client_append(false, 9, 3, KVCommand::Delete("k".to_string())) {
        ClientRoute::AskLeader(p) => assert_eq!(p, vec![1, 2]),
        _ => panic!("follower asks"),
    }
    assert!(accept_for_leader(false, 4, 9, 3, KVCommand::Get("k".to_string())).is_none());
    let c = accept_for_leader(true, 4, 9, 3, KVCommand::Get("k".to_string())).unwrap();
    assert_eq!((c.client_id, c.coordinator_id, c.id), (9, 4, 3));
}

#[test]
fn start_signals_go_to_every_client() {
    assert_eq!(start_signal_clients(3), vec![1, 2, 3]);
    assert!(start_signal_clients(0).is_empty());
}

#[test]
fn clock_requests_only_to_known_peers() {
    assert_eq!(peer_for_clock_request(&vec![2, 3], 3), Some(3));
    assert_eq!(peer_for_clock_request(&vec![2, 3], 4), None);
}

#[test]
fn clock_built_from_config_or_defaults() {
    let c = clock_from_config(2, None, 1, 0);
    assert_eq!(c.get_time(), 0);
    let mut c = clock_from_config(
        2,
        Some(ClockConfig { clock_uncertainty_us: 100, clock_sync_interval_ms: 10 }),
        1,
        1_000_000,
    );
    c.tick(1_000_000, true);
    assert_eq!(c.get_time(), 1_100_000);
    assert_eq!(c.get_uncertainty(), 100_000);
}

#[test]
fn server_clock_tick_and_resync() {
    let mut c = ClockState::new(1, 1, 10, 10, 1, 0);
    c.tick(1_000, false);
    assert_eq!(c.get_time(), 990);
    c.tick(2_000, true);
    assert_eq!(c.get_time(), 2_010);
    assert_eq!(c.get_uncertainty(), 20);
    c.resync(5);
    assert_eq!(c.get_time(), 5);
    assert_eq!(c.get_uncertainty(), 0);
}

#[test]
fn configs_peers_defaults_and_conversion() {
    let cfg = kv_config(None);
    assert_eq!(cfg.get_peers(2), vec![1, 3]);
    assert_eq!(cfg.get_peers(7), vec![1, 2, 3]);
    assert_eq!(default_clock_uncertainty_us(), 10);
    assert_eq!(default_clock_sync_interval_ms(), 1);
    assert_eq!(cfg.clock_quality(None), (10, 1));
    assert_eq!(cfg.sync_interval_ms(None), 1);
    let op: OmniPaxosConfig = cfg.clone().into();
    assert_eq!(op.cluster_config.configuration_id, 1);
    assert_eq!(op.cluster_config.nodes, vec![1, 2, 3]);
    assert_eq!(op.server_config.pid, 2);
    assert_eq!(op.server_config.batch_size, 1);
    let with_clock = kv_config(Some(ClockConfig { clock_uncertainty_us: 1000, clock_sync_interval_ms: 100 }));
    assert_eq!(with_clock.clock_quality(None), (1000, 100));
    assert_eq!(with_clock.sync_interval_ms(None), 100);
    let env = Some(ClockConfig { clock_uncertainty_us: 100, clock_sync_interval_ms: 10 });
    assert_eq!(with_clock.sync_interval_ms(env), 100);
    assert_eq!(cfg.sync_interval_ms(env), 10);
    assert_eq!(cfg.clock_quality(env), (100, 10));
}

#[test]
fn decimal_parsing_matches_from_str() {
    for text in ["0", "42", "+7", "007", "18446744073709551615", "", "+", "-1", "1a", "18446744073709551616", " 1"] {
        assert_eq!(parse_decimal_u64(text.as_bytes()), text.parse::<u64>().ok(), "{text}");
    }
    for text in ["4294967295", "4294967296", "+0", "12"] {
        assert_eq!(parse_decimal_u32(text.as_bytes()), text.parse::<u32>().ok(), "{text}");
    }
}

#[test]
fn clock_config_from_env_texts() {
    let c = ClockConfig::from_env_values(Some(b"100"), Some(b"10")).unwrap();
    assert_eq!((c.clock_uncertainty_us, c.clock_sync_interval_ms), (100, 10));
    assert!(ClockConfig::from_env_values(Some(b"100"), None).is_none());
    assert!(ClockConfig::from_env_values(Some(b"x"), Some(b"10")).is_none());
    assert!(ClockConfig::from_values(Some(1), Some(2)).is_some());
}

#[test]
fn answers_do_not_depend_on_resync_timing() {
    let batch = || vec![put(0, "x", "1", 1), get(1, "x", 1), put(2, "x", "2", 3)];
    let mut a = server(1, &[]);
    let mut b = server(1, &[]);
    let out_a = a.update_database_and_respond(batch(), None, 1);
    let out_b = b.update_database_and_respond(batch(), Some(0), 1_000);
    assert_eq!(out_a.len(), out_b.len());
    for (x, y) in out_a.iter().zip(out_b.iter()) {
        assert_eq!(x.client_id, y.client_id);
        match (&x.msg, &y.msg) {
            (ServerMessage::Write(i), ServerMessage::Write(j)) => assert_eq!(i, j),
            (ServerMessage::Read(i, v), ServerMessage::Read(j, w)) => assert_eq!((i, v), (j, w)),
            _ => panic!("answers differ"),
        }
    }
    assert_eq!(a.metrics.fast_path_responses, 2);
    assert_eq!(b.metrics.fast_path_responses, 0);
    assert_eq!(
        a.database.handle_command(KVCommand::Get("x".to_string())),
        b.database.handle_command(KVCommand::Get("x".to_string()))
    );
}

#[test]
fn delete_then_put_restores_key() {
    let mut db = Database::new();
    db.handle_command(KVCommand::Put("k".to_string(), "1".to_string()));
    db.handle_command(KVCommand::Delete("k".to_string()));
    db.handle_command(KVCommand::Put("k".to_string(), "2".to_string()));
    db.handle_command(KVCommand::Put("other".to_string(), "3".to_string()));
    assert_eq!(db.handle_command(KVCommand::Get("k".to_string())), Some(Some("2".to_string())));
}

#[test]
fn cluster_messages_dispatch() {
    assert!(matches!(dispatch_cluster_message(false, ClusterMessage::LeaderStartSignal(5)), ClusterAction::StartClients(5)));
    assert!(matches!(dispatch_cluster_message(false, ClusterMessage::LeaderTime(3)), ClusterAction::SendTime(3)));
    assert!(matches!(dispatch_cluster_message(true, ClusterMessage::ClockResponse { real_time: 9 }), ClusterAction::Resync(9)));
    let fwd = ClusterMessage::ForwardedClientMessage {
        coordinator_id: 2,
        client_id: 7,
        msg: ClientMessage::Append(4, KVCommand::Get("k".to_string())),
    };
    match dispatch_cluster_message(false, fwd) {
        ClusterAction::Append(c) => assert_eq!((c.coordinator_id, c.client_id, c.id), (2, 7, 4)),
        _ => panic!("forwarded requests are appended"),
    }
    let ask = || ClusterMessage::ClientMessageForLeader {
        coordinator_id: 2,
        client_id: 7,
        msg: ClientMessage::Append(5, KVCommand::Delete("k".to_string())),
    };
    assert!(matches!(dispatch_cluster_message(false, ask()), ClusterAction::Ignore));
    match dispatch_cluster_message(true, ask()) {
        ClusterAction::AppendAndForward(c) => assert_eq!((c.coordinator_id, c.client_id, c.id), (2, 7, 5)),
        _ => panic!("the leader appends and forwards"),
    }
    assert!(leads_in_accept_phase(Some((1, true)), 1));
    assert!(!leads_in_accept_phase(Some((1, false)), 1));
    assert!(!leads_in_accept_phase(Some((2, true)), 1));
    assert!(!leads_in_accept_phase(None, 1));
}

#[test]
fn server_takes_peers_and_clock_from_config() {
    let cfg = kv_config(None);
    let env = Some(ClockConfig { clock_uncertainty_us: 100, clock_sync_interval_ms: 10 });
    let mut s = OmniPaxosServer::new(&cfg, env, 3, 5_000);
    assert_eq!(s.id, 2);
    assert_eq!(s.peers, vec![1, 3]);
    assert_eq!(s.sync_interval_ms, 10);
    assert_eq!(s.last_resync, None);
    assert_eq!(s.get_applied_idx(), 0);
    assert_eq!(s.clock.get_time(), 5_000);
    assert_eq!(s.clock.get_drift(), 100_000);
    let configured = OmniPaxosServer::new(&kv_config(Some(ClockConfig { clock_uncertainty_us: 1, clock_sync_interval_ms: 7 })), env, 3, 0);
    assert_eq!(configured.sync_interval_ms, 7);
    assert_eq!(configured.clock.get_drift(), 1_000);
    let defaults = OmniPaxosServer::new(&cfg, None, 3, 0);
    assert_eq!(defaults.sync_interval_ms, 1);
    assert_eq!(defaults.clock.get_drift(), 10_000);
    s.clock.tick(6_000, true);
    s.on_clock_response(42, 9);
    assert_eq!(s.clock.get_time(), 42);
    assert_eq!(s.clock.get_uncertainty(), 0);
    assert_eq!(s.last_resync, Some(9));
}

#[test]
fn cluster_batch_is_drained_and_start_signal_reported() {
    let mut batch = vec![
        (2, ClusterMessage::LeaderTime(2)),
        (1, ClusterMessage::LeaderStartSignal(77)),
        (3, ClusterMessage::ClockResponse { real_time: 12 }),
    ];
    let (actions, started) = dispatch_cluster_messages(false, &mut batch);
    assert!(batch.is_empty());
    assert!(started);
    assert_eq!(actions.len(), 3);
    assert!(matches!(actions[0], ClusterAction::SendTime(2)));
    assert!(matches!(actions[1], ClusterAction::StartClients(77)));
    assert!(matches!(actions[2], ClusterAction::Resync(12)));
    let mut batch = vec![(3, ClusterMessage::LeaderTime(3))];
    let (actions, started) = dispatch_cluster_messages(true, &mut batch);
    assert!(!started);
    assert_eq!(actions.len(), 1);
    let mut empty = Vec::new();
    let (actions, started) = dispatch_cluster_messages(true, &mut empty);
    assert!(actions.is_empty() && !started);
}

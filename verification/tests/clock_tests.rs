use rand::SeedableRng;
use omnipaxos_clock::clock::{
    corrected_master_time, ClockState, DEADLINE_NANOS, MASTER_NODE, TICK_NANOS,
};
use omnipaxos_clock::messages::PaxosMsg;

fn clock(drift: u64, sync_freq: u32, now: u64) -> ClockState<&'static str> {
    ClockState::new(7, 2, drift, 50, sync_freq, now)
}

#[test]
fn new_clock_reads_start_time() {
    let c = clock(10, 5, 1_000);
    assert_eq!(c.get_time(), 1_000);
    assert_eq!(c.get_uncertainty(), 50);
}

#[test]
fn fast_tick_adds_step_and_drift() {
    let mut c = clock(10, 100, 0);
    let out = c.tick(true);
    assert_eq!(c.get_time(), TICK_NANOS + 10);
    assert!(out.fired.is_empty());
    assert!(!out.resync);
}

#[test]
fn slow_tick_subtracts_drift() {
    let mut c = clock(10, 100, 0);
    c.tick(false);
    assert_eq!(c.get_time(), TICK_NANOS - 10);
}

#[test]
fn slow_tick_with_huge_drift_does_not_go_back() {
    let mut c = clock(5 * TICK_NANOS, 100, 42);
    c.tick(false);
    assert_eq!(c.get_time(), 42);
}

#[test]
fn uncertainty_grows_by_drift_per_tick() {
    let mut c = clock(10, 100, 0);
    c.tick(true);
    c.tick(false);
    c.tick(true);
    assert_eq!(c.get_uncertainty(), 50 + 3 * 10);
}

#[test]
fn resync_requested_at_sync_freq() {
    let mut c = clock(1, 3, 0);
    assert!(!c.tick(true).resync);
    assert!(!c.tick(true).resync);
    assert!(c.tick(true).resync);
    assert_eq!(c.get_uncertainty(), 50);
    assert!(!c.tick(true).resync);
}

#[test]
fn zero_sync_freq_resyncs_every_tick() {
    let mut c = clock(1, 0, 0);
    assert!(c.tick(true).resync);
    assert!(c.tick(false).resync);
}

#[test]
fn resync_sets_time_and_clears_uncertainty() {
    let mut c = clock(10, 100, 0);
    c.tick(true);
    c.tick(true);
    c.resync(123_456);
    assert_eq!(c.get_time(), 123_456);
    assert_eq!(c.get_uncertainty(), 0);
}

#[test]
fn new_deadline_is_twenty_ms_ahead() {
    let c = clock(10, 100, 5_000);
    assert_eq!(c.new_deadline(), 5_000 + DEADLINE_NANOS);
    assert_eq!(DEADLINE_NANOS, 20_000_000);
}

#[test]
fn passed_deadlines_fire_in_deadline_order() {
    let mut c = clock(0, 100, 0);
    assert!(c.add_deadline(3 * TICK_NANOS / 2, "b").is_none());
    assert!(c.add_deadline(TICK_NANOS / 2, "a").is_none());
    assert!(c.add_deadline(10 * TICK_NANOS, "late").is_none());
    let out = c.tick(true);
    assert_eq!(out.fired, vec!["a"]);
    let out = c.tick(true);
    assert_eq!(out.fired, vec!["b"]);
    let out = c.tick(true);
    assert!(out.fired.is_empty());
}

#[test]
fn deadline_equal_to_time_waits() {
    let mut c = clock(0, 100, 0);
    c.add_deadline(TICK_NANOS, "x");
    assert!(c.tick(true).fired.is_empty());
    assert_eq!(c.tick(true).fired, vec!["x"]);
}

#[test]
fn same_deadline_replaces_waiter_and_fires_once() {
    let mut c = clock(0, 100, 0);
    assert_eq!(c.add_deadline(10, "first"), None);
    assert_eq!(c.add_deadline(10, "second"), Some("first"));
    let out = c.tick(true);
    assert_eq!(out.fired, vec!["second"]);
}

#[test]
fn process_deadlines_after_resync_fires_passed_ones() {
    let mut c = clock(0, 100, 0);
    c.add_deadline(500, "p");
    c.add_deadline(900, "q");
    c.resync(800);
    assert_eq!(c.process_deadlines(), vec!["p"]);
    assert!(c.process_deadlines().is_empty());
}

#[test]
fn corrected_time_adds_half_round_trip() {
    assert_eq!(corrected_master_time(1_000, 100, 301), 1_000 + 100);
    assert_eq!(corrected_master_time(5, 10, 10), 5);
}

#[test]
fn sync_request_goes_to_master() {
    let c = clock(0, 1, 0);
    let m = c.sync_request::<u8>().expect("non-master asks");
    assert_eq!(m.from, 2);
    assert_eq!(m.to, MASTER_NODE);
    assert!(matches!(m.msg, PaxosMsg::SyncReq));
    let master: ClockState<()> = ClockState::new(1, MASTER_NODE, 0, 0, 1, 0);
    assert!(master.sync_request::<u8>().is_none());
}

#[test]
fn random_tick_moves_by_one_step_either_way() {
    let mut rng = rand::rngs::StdRng::seed_from_u64(7);
    let mut c = clock(10, 100, 0);
    let mut seen_fast = false;
    let mut seen_slow = false;
    for _ in 0..64 {
        let before = c.get_time();
        c.tick_with(&mut rng);
        let moved = c.get_time() - before;
        assert!(moved == TICK_NANOS + 10 || moved == TICK_NANOS - 10);
        seen_fast |= moved == TICK_NANOS + 10;
        seen_slow |= moved == TICK_NANOS - 10;
    }
    assert!(seen_fast && seen_slow);
}

#[test]
fn random_server_tick_stays_within_drift() {
    let mut rng = rand::rngs::StdRng::seed_from_u64(3);
    let mut c = omnipaxos_clock::kv_clock::ClockState::new(1, 1, 25, 25, 1, 0);
    for i in 1..20u64 {
        let now = 1_000 * i;
        c.tick_with(now, &mut rng);
        let t = c.get_time();
        assert!(t == now + 25 || t == now - 25);
    }
    assert_eq!(c.get_uncertainty(), 19 * 25);
}

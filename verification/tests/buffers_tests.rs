use omnipaxos_clock::clock::{ClockState, TICK_NANOS};
use omnipaxos_clock::buffers::{Buffers, Request};

#[derive(Debug, PartialEq)]
struct Req {
    id: usize,
    deadline: u64,
}

impl Request for Req {
    fn get_deadline(&self) -> u64 {
        self.deadline
    }
    fn get_id(&self) -> usize {
        self.id
    }
}

#[test]
fn empty_buffer_releases_nothing() {
    let mut b: Buffers<Req, u32> = Buffers::new();
    assert!(b.pop_earliest().is_none());
}

#[test]
fn releases_earliest_deadline_first() {
    let mut b: Buffers<Req, &str> = Buffers::new();
    b.insert(Req { id: 1, deadline: 30 }, "n1");
    b.insert(Req { id: 2, deadline: 10 }, "n2");
    b.insert(Req { id: 3, deadline: 20 }, "n3");
    let (n, r) = b.pop_earliest().unwrap();
    assert_eq!((n, r.id), (Some("n2"), 2));
    let (n, r) = b.pop_earliest().unwrap();
    assert_eq!((n, r.id), (Some("n3"), 3));
    let (n, r) = b.pop_earliest().unwrap();
    assert_eq!((n, r.id), (Some("n1"), 1));
    assert!(b.pop_earliest().is_none());
}

#[test]
fn equal_deadlines_leave_in_arrival_order() {
    let mut b: Buffers<Req, u8> = Buffers::new();
    b.insert(Req { id: 1, deadline: 5 }, 1);
    b.insert(Req { id: 2, deadline: 5 }, 2);
    assert_eq!(b.pop_earliest().unwrap().1.id, 1);
    assert_eq!(b.pop_earliest().unwrap().1.id, 2);
}

#[test]
fn reused_id_replaces_notifier() {
    let mut b: Buffers<Req, &str> = Buffers::new();
    assert_eq!(b.insert(Req { id: 9, deadline: 5 }, "old"), None);
    assert_eq!(b.insert(Req { id: 9, deadline: 6 }, "new"), Some("old"));
    let (n, r) = b.pop_earliest().unwrap();
    assert_eq!((n, r.deadline), (Some("new"), 5));
    let (n, r) = b.pop_earliest().unwrap();
    assert_eq!((n, r.deadline), (None, 6));
}

#[test]
fn insert_keyed_uses_given_keys() {
    let mut b: Buffers<&str, u8> = Buffers::new();
    b.insert_keyed(100, 1, "x", 1);
    b.insert_keyed(50, 2, "y", 2);
    assert_eq!(b.pop_earliest(), Some((Some(2), "y")));
    assert_eq!(b.pop_earliest(), Some((Some(1), "x")));
}

#[test]
fn single_request_comes_back_with_its_notifier() {
    let mut b: Buffers<Req, &str> = Buffers::new();
    b.insert(Req { id: 4, deadline: 77 }, "only");
    assert_eq!(b.pop_earliest(), Some((Some("only"), Req { id: 4, deadline: 77 })));
}

#[test]
fn released_request_waits_for_clock_to_pass_deadline() {
    let mut b: Buffers<Req, u8> = Buffers::new();
    b.insert(Req { id: 1, deadline: 3 * TICK_NANOS / 2 }, 1);
    b.insert(Req { id: 2, deadline: 9 * TICK_NANOS }, 2);
    let (_, first) = b.pop_earliest().unwrap();
    let mut clock: ClockState<usize> = ClockState::new(1, 1, 0, 0, 100, 0);
    clock.add_deadline(first.get_deadline(), first.get_id());
    assert!(clock.tick(true).fired.is_empty());
    assert_eq!(clock.tick(true).fired, vec![1]);
}

#[test]
fn scheduled_request_is_woken_once_clock_passes_it() {
    let mut b: Buffers<Req, &str> = Buffers::new();
    b.insert(Req { id: 2, deadline: 9 * TICK_NANOS }, "n2");
    b.insert(Req { id: 1, deadline: 3 * TICK_NANOS / 2 }, "n1");
    let mut clock: ClockState<char> = ClockState::new(1, 1, 0, 0, 100, 0);
    let (n, r, displaced) = b.schedule_earliest(&mut clock, 'a').unwrap();
    assert_eq!((n, r, displaced), (Some("n1"), Req { id: 1, deadline: 3 * TICK_NANOS / 2 }, None));
    assert!(clock.tick(true).fired.is_empty());
    assert_eq!(clock.tick(true).fired, vec!['a']);
    let (n, r, _) = b.schedule_earliest(&mut clock, 'b').unwrap();
    assert_eq!((n, r.id), (Some("n2"), 2));
    assert!(b.schedule_earliest(&mut clock, 'c').is_none());
}

#[test]
fn scheduling_on_a_taken_deadline_hands_back_the_old_waiter() {
    let mut b: Buffers<Req, u8> = Buffers::new();
    b.insert(Req { id: 5, deadline: 40 }, 5);
    let mut clock: ClockState<char> = ClockState::new(1, 1, 0, 0, 100, 0);
    clock.add_deadline(40, 'x');
    let (_, _, displaced) = b.schedule_earliest(&mut clock, 'y').unwrap();
    assert_eq!(displaced, Some('x'));
}

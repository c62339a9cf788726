use omnipaxos_clock::messages::{
    BLEMessage, HeartbeatMsg, HeartbeatReply, HeartbeatRequest, Message, PaxosMessage, PaxosMsg,
    PrepareReq, Promise,
};
use omnipaxos_clock::util::{Ballot, LogSync};

#[test]
fn paxos_message_sender_and_receiver() {
    let m: Message<u32> = Message::SequencePaxos(PaxosMessage {
        from: 3,
        to: 5,
        msg: PaxosMsg::Confirm(7, 1),
    });
    assert_eq!(m.get_sender(), 3);
    assert_eq!(m.get_receiver(), 5);
}

#[test]
fn ble_message_sender_and_receiver() {
    let m: Message<u32> = Message::BLE(BLEMessage {
        from: 8,
        to: 2,
        msg: HeartbeatMsg::Request(HeartbeatRequest { round: 4 }),
    });
    assert_eq!(m.get_sender(), 8);
    assert_eq!(m.get_receiver(), 2);
}

#[test]
fn message_values_can_be_built() {
    let b = Ballot::with(1, 2, 0, 3);
    let reply = HeartbeatReply { round: 1, ballot: b, leader: b, happy: true };
    assert!(reply.happy);
    let p = PrepareReq { n: b };
    assert_eq!(p.n, b);
    let promise: Promise<u8> = Promise {
        n: b,
        n_accepted: Ballot::default(),
        decided_idx: 2,
        accepted_idx: 3,
        log_sync: Some(LogSync { suffix: vec![1, 2], sync_idx: 1, stopsign: None }),
    };
    assert_eq!(promise.log_sync.unwrap().suffix, vec![1, 2]);
}

#[test]
fn ballots_order_by_round_then_priority_then_pid() {
    let a = Ballot::with(9, 1, 5, 9);
    let b = Ballot::with(0, 2, 0, 0);
    assert!(a.leq(&b));
    assert!(!b.leq(&a));
    let c = Ballot::with(0, 1, 5, 10);
    assert!(a.leq(&c));
    assert!(!c.leq(&a));
    assert!(a.leq(&a));
    let d = Ballot::with(0, 1, 6, 0);
    assert!(c.leq(&d));
}

use bytes::Bytes;
use walredo::codec::BufferTag;
use walredo::entry::{complete_request, publish_result, EntrySlot};
use walredo::error::RedoError;
use walredo::redo::{build_redo_messages, decode_page_response, WalRecord};
use walredo::worker::{after_request, WorkerAction, WorkerState, REUSE_BOUND};

fn tag() -> BufferTag {
    BufferTag { spcnode: 1, dbnode: 1, relnode: 1, forknum: 0, blknum: 5 }
}

fn tags_of(msgs: &[Bytes]) -> Vec<u8> {
    msgs.iter().map(|m| m[0]).collect()
}

fn deterministic_page() -> Vec<u8> {
    (0..8192usize).map(|i| (i * 7 % 256) as u8).collect()
}

#[test]
fn scenario_no_base_image_one_record() {
    let records = vec![WalRecord::new(100, Bytes::from_static(b"INIT"))];
    let msgs = build_redo_messages(tag(), &None, &records).unwrap();
    assert_eq!(tags_of(&msgs), vec![b'B', b'A', b'G']);
    assert_eq!(&msgs[1][5..13], &100u64.to_be_bytes()[..]);
    assert_eq!(&msgs[1][13..], b"INIT");

    let mut slot = EntrySlot::new();
    slot.mark_pending();
    slot.begin_service();
    let page = decode_page_response(deterministic_page()).unwrap();
    assert!(publish_result(&mut slot, Ok(page)));
    assert_eq!(&slot.page_image.as_ref().unwrap()[..], &deterministic_page()[..]);
    assert!(!slot.apply_pending);
}

#[test]
fn scenario_base_image_no_records() {
    let base = Some(Bytes::from(vec![1u8; 8192]));
    let msgs = build_redo_messages(tag(), &base, &vec![]).unwrap();
    assert_eq!(tags_of(&msgs), vec![b'B', b'P', b'G']);
}

#[test]
fn records_sent_in_order_between_head_and_get_page() {
    let records: Vec<WalRecord> = (0..5u64)
        .map(|i| WalRecord::new(10 + i, Bytes::from(vec![i as u8; i as usize])))
        .collect();
    let base = Some(Bytes::from(vec![0u8; 8192]));
    let msgs = build_redo_messages(tag(), &base, &records).unwrap();
    assert_eq!(tags_of(&msgs), vec![b'B', b'P', b'A', b'A', b'A', b'A', b'A', b'G']);
    for i in 0..5usize {
        let m = &msgs[2 + i];
        assert_eq!(&m[5..13], &(10 + i as u64).to_be_bytes()[..]);
        assert_eq!(m.len(), 13 + i);
    }
}

#[test]
fn plan_rejects_base_image_of_wrong_size() {
    let base = Some(Bytes::from(vec![0u8; 4096]));
    let r = build_redo_messages(tag(), &base, &vec![]);
    assert_eq!(r.err(), Some(RedoError::ProtocolPrecondition));
}

#[test]
fn short_response_is_a_stream_failure() {
    assert_eq!(decode_page_response(vec![0u8; 8191]).err(), Some(RedoError::StreamFailure));
    assert_eq!(decode_page_response(vec![]).err(), Some(RedoError::StreamFailure));
}

#[test]
fn failed_request_leaves_image_and_clears_pending() {
    let mut slot = EntrySlot::new();
    publish_result(&mut slot, Ok(Bytes::from(vec![5u8; 8192])));
    slot.mark_pending();
    assert!(!publish_result(&mut slot, Err(RedoError::Timeout)));
    assert!(!slot.apply_pending);
    assert_eq!(&slot.page_image.as_ref().unwrap()[..], &vec![5u8; 8192][..]);
}

#[test]
fn failure_moves_to_fresh_instance() {
    let s = WorkerState::new();
    let (a, s) = after_request(s, true);
    assert_eq!(a, WorkerAction::ServeNext);
    let (a, n) = after_request(s, false);
    assert_eq!(a, WorkerAction::Relaunch);
    assert_eq!(n.served, 0);
    assert_ne!(n.instance, s.instance);
}

#[test]
fn instance_replaced_after_reuse_bound() {
    let mut s = WorkerState::new();
    for k in 1..=REUSE_BOUND {
        let (a, n) = after_request(s, true);
        if k < REUSE_BOUND {
            assert_eq!(a, WorkerAction::ServeNext);
            assert_eq!(n.instance, 0);
        } else {
            assert_eq!(a, WorkerAction::Relaunch);
            assert_eq!(n.instance, 1);
            assert_eq!(n.served, 0);
        }
        s = n;
    }
    assert_eq!(REUSE_BOUND, 100);
}

#[test]
fn completion_publishes_and_decides() {
    let mut slot = EntrySlot::new();
    slot.mark_pending();
    let c = complete_request(&mut slot, Err(RedoError::StreamFailure), WorkerState::new());
    assert!(!c.produced);
    assert_eq!(c.action, WorkerAction::Relaunch);
    assert!(!slot.apply_pending);
    assert!(slot.page_image.is_none());
    let c = complete_request(&mut slot, Ok(Bytes::from(vec![2u8; 8192])), c.next);
    assert!(c.produced);
    assert_eq!(c.action, WorkerAction::ServeNext);
    assert_eq!(c.next.instance, 1);
    assert_eq!(slot.page_image.as_ref().unwrap().len(), 8192);
}

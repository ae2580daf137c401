use netaudio::codec::encode_frame;
use netaudio::queue::TransferQueue;
use netaudio::receive::{on_event, LoopAction, ReceiveConfig, RecvEvent, REPORT_INTERVAL_SECS};

const QUIET: ReceiveConfig = ReceiveConfig { debug: false };
const DEBUG: ReceiveConfig = ReceiveConfig { debug: true };

#[test]
fn one_datagram_of_one_sample_enters_queue() {
    let buf = [0x3Fu8, 0x80, 0x00, 0x00];
    let mut q = TransferQueue::new();
    match on_event(QUIET, RecvEvent::Received { len: 4 }, &buf, 0) {
        LoopAction::Deliver { frame, report } => {
            assert!(!report);
            q.push_frame(&frame);
        }
        other => panic!("unexpected action {:?}", other),
    }
    assert_eq!(q.len(), 1);
    assert_eq!(f32::from_bits(q.pop().unwrap()), 1.0f32);
}

#[test]
fn socket_failure_stops_the_loop() {
    let buf = [0u8; 8];
    assert!(matches!(on_event(QUIET, RecvEvent::Failed, &buf, 0), LoopAction::Stop));
    assert!(matches!(on_event(DEBUG, RecvEvent::Failed, &buf, 100), LoopAction::Stop));
}

#[test]
fn would_block_and_empty_receive_poll_again() {
    let buf = [0u8; 8];
    assert!(matches!(on_event(QUIET, RecvEvent::WouldBlock, &buf, 0), LoopAction::Poll));
    assert!(matches!(on_event(DEBUG, RecvEvent::Received { len: 0 }, &buf, 100), LoopAction::Poll));
}

#[test]
fn misaligned_datagram_is_skipped_without_delivery() {
    let buf = [1u8, 2, 3, 4, 5, 6];
    let mut q = TransferQueue::new();
    q.push(42);
    match on_event(QUIET, RecvEvent::Received { len: 6 }, &buf, 0) {
        LoopAction::Skip { len, report } => {
            assert_eq!(len, 6);
            assert!(!report);
        }
        other => panic!("unexpected action {:?}", other),
    }
    assert_eq!(q.drain(), vec![42]);
}

#[test]
fn delivered_frame_holds_every_sample_in_order() {
    let samples = vec![0.5f32.to_bits(), (-0.5f32).to_bits(), 0.0f32.to_bits()];
    let mut buf = encode_frame(&samples);
    let len = buf.len();
    buf.extend_from_slice(&[9, 9, 9, 9]);
    match on_event(QUIET, RecvEvent::Received { len }, &buf, 0) {
        LoopAction::Deliver { frame, .. } => assert_eq!(frame, samples),
        other => panic!("unexpected action {:?}", other),
    }
}

#[test]
fn debug_report_only_after_interval() {
    let buf = [0u8; 4];
    let report_at = |config: ReceiveConfig, secs: u64| match on_event(config, RecvEvent::Received { len: 4 }, &buf, secs) {
        LoopAction::Deliver { report, .. } => report,
        other => panic!("unexpected action {:?}", other),
    };
    assert!(!report_at(DEBUG, REPORT_INTERVAL_SECS));
    assert!(report_at(DEBUG, REPORT_INTERVAL_SECS + 1));
    assert!(!report_at(QUIET, REPORT_INTERVAL_SECS + 1));
    assert_eq!(REPORT_INTERVAL_SECS, 5);
    match on_event(DEBUG, RecvEvent::Received { len: 3 }, &buf, 6) {
        LoopAction::Skip { len: 3, report } => assert!(report),
        other => panic!("unexpected action {:?}", other),
    }
}

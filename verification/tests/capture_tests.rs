use wizscribe::capture::{drain_block_into, forward_block, process_capture_block};
use wizscribe::sample::{average_pair, downmix_stereo, duration_secs};
use wizscribe::writer::StereoFrameBuffer;

#[test]
fn block_dropped_while_not_recording() {
    let data = vec![1, 2, 3, 4];
    let out = process_capture_block(false, &data, 1, 16000, 16000);
    assert!(out.is_none());
}

#[test]
fn mono_block_at_matched_rate_passes_through() {
    let data = vec![10, 20, 30];
    let out = process_capture_block(true, &data, 1, 16000, 16000).unwrap();
    assert_eq!(out, data);
}

#[test]
fn stereo_block_is_downmixed() {
    // pairs (100, 200) and (-50, 50) average to 150 and 0
    let data = vec![100, 200, -50, 50];
    let out = process_capture_block(true, &data, 2, 16000, 16000).unwrap();
    assert_eq!(out, vec![150, 0]);
}

#[test]
fn stereo_block_downmixed_then_resampled() {
    // downmix to [0, 32768], then upsample by 2
    let data = vec![0, 0, 32768, 32768];
    let out = process_capture_block(true, &data, 2, 32000, 16000).unwrap();
    assert_eq!(out, vec![0, 16384, 32768, 32768]);
}

#[test]
fn downmix_drops_trailing_unpaired_sample() {
    let out = downmix_stereo(&vec![10, 20, 99]);
    assert_eq!(out, vec![15]);
}

#[test]
fn average_truncates_toward_zero() {
    assert_eq!(average_pair(3, 4), 3);
    assert_eq!(average_pair(-3, -4), -3);
    assert_eq!(average_pair(i32::MAX, i32::MAX), i32::MAX);
    assert_eq!(average_pair(i32::MIN, i32::MIN), i32::MIN);
}

#[test]
fn forward_and_drain_through_queue() {
    let (tx, rx) = crossbeam_channel::bounded::<Vec<i32>>(4);
    let data = vec![100, 200, -50, 50];
    let sent = forward_block(&tx, true, &data, 2, 16000, 16000);
    assert!(sent);

    let mut buffer = StereoFrameBuffer::new();
    let got = drain_block_into(&rx, &mut buffer, true);
    assert!(got);
    let frames = buffer.flush_buffers();
    // the queued block was the downmixed pair averages [150, 0]
    assert_eq!(frames.len(), 2);
    assert_eq!(frames[0].right, 0);

    // queue is empty now
    let got_again = drain_block_into(&rx, &mut buffer, true);
    assert!(!got_again);
}

#[test]
fn forward_drops_block_when_not_recording() {
    let (tx, rx) = crossbeam_channel::bounded::<Vec<i32>>(4);
    let sent = forward_block(&tx, false, &vec![1, 2], 1, 16000, 16000);
    assert!(!sent);
    assert!(rx.try_recv().is_err());
}

#[test]
fn forward_drops_block_when_queue_full() {
    let (tx, rx) = crossbeam_channel::bounded::<Vec<i32>>(1);
    assert!(forward_block(&tx, true, &vec![1], 1, 16000, 16000));
    // second block finds the queue full and is lost, not blocking
    assert!(!forward_block(&tx, true, &vec![2], 1, 16000, 16000));
    assert_eq!(rx.try_recv().unwrap(), vec![1]);
}

#[test]
fn duration_whole_seconds() {
    assert_eq!(duration_secs(16000 * 3, 16000), 3);
    assert_eq!(duration_secs(16000 * 3 + 15999, 16000), 3);
    assert_eq!(duration_secs(0, 16000), 0);
}

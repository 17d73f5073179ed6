//! Per-device capture processing and the bounded block queue between a
//! capture source and the stereo writer.
//!
//! A capture callback must never block: each delivered block is dropped
//! outright while the session is not recording, otherwise down-mixed to
//! mono, resampled to the target rate, and offered to the writer's queue
//! with a non-blocking send. A full queue drops the block — backpressure is
//! absorbed by loss, never by stalling the audio callback. The writer side
//! drains the queue one block per tick, also without blocking.
//!
//! The queue itself is `crossbeam_channel`'s bounded channel. What a send
//! or receive observes depends on the other threads, so the wrappers
//! promise nothing about the queue's contents; the processing around them
//! is specified exactly.

use vstd::prelude::*;
use vstd::arithmetic::div_mod::lemma_div_is_ordered;
use vstd::arithmetic::mul::lemma_mul_inequality;

use crossbeam_channel::{Receiver, Sender};

use crate::resample::{linear_resampled, resample_linear, resampled_len};
use crate::sample::{copy_block, downmix_stereo, downmixed};
use crate::writer::StereoFrameBuffer;

verus! {

#[verifier::external_type_specification]
#[verifier::external_body]
#[verifier::reject_recursive_types(T)]
pub struct ExSender<T>(Sender<T>);

#[verifier::external_type_specification]
#[verifier::external_body]
#[verifier::reject_recursive_types(T)]
pub struct ExReceiver<T>(Receiver<T>);

/// Fewer input samples never mean more output samples.
proof fn lemma_resampled_len_monotonic(len1: int, len2: int, target: int, source: int)
    requires
        0 <= len1 <= len2,
        0 <= target,
        source >= 1,
    ensures
        resampled_len(len1, target, source) <= resampled_len(len2, target, source),
{
    lemma_mul_inequality(len1, len2, target);
    lemma_div_is_ordered(len1 * target, len2 * target, source);
}

/// What one capture callback forwards for a delivered block: the block
/// down-mixed to mono (stereo devices average each channel pair) and
/// resampled from the device rate to the session's target rate.
pub open spec fn processed_block(
    data: Seq<i32>,
    channels: u16,
    target_rate: int,
    source_rate: int,
) -> Seq<i32> {
    let mono = if channels == 2 {
        downmixed(data)
    } else {
        data
    };
    linear_resampled(mono, target_rate, source_rate)
}

/// One capture callback's compute step: `None` while the session is not
/// recording (the block is discarded unbuffered), else the down-mixed,
/// resampled block.
pub fn process_capture_block(
    recording: bool,
    data: &Vec<i32>,
    channels: u16,
    target_rate: u32,
    source_rate: u32,
) -> (r: Option<Vec<i32>>)
    requires
        source_rate >= 1,
        resampled_len(data@.len() as int, target_rate as int, source_rate as int) <= usize::MAX,
    ensures
        r is Some <==> recording,
        recording ==> r->0@ == processed_block(
            data@,
            channels,
            target_rate as int,
            source_rate as int,
        ),
{
    if !recording {
        return None;
    }
    let mono: Vec<i32> = if channels == 2 {
        downmix_stereo(data)
    } else {
        copy_block(data)
    };
    proof {
        lemma_resampled_len_monotonic(
            mono@.len() as int,
            data@.len() as int,
            target_rate as int,
            source_rate as int,
        );
    }
    let resampled = resample_linear(&mono, target_rate, source_rate);
    Some(resampled)
}

/// Relies on crossbeam_channel::Sender::try_send: delivers the block to
/// the queue unless the queue is full or disconnected, without ever
/// blocking; a rejected block is dropped. Whether it is accepted depends
/// on the consumer thread, so nothing is promised about the outcome.
#[verifier::external_body]
fn try_send_block(tx: &Sender<Vec<i32>>, block: Vec<i32>) -> (accepted: bool) {
    tx.try_send(block).is_ok()
}

/// Relies on crossbeam_channel::Receiver::try_recv: pops the oldest queued
/// block, or nothing when the queue is currently empty or disconnected,
/// without ever blocking. What arrives depends on the producer thread, so
/// nothing is promised about the value.
#[verifier::external_body]
fn try_recv_block(rx: &Receiver<Vec<i32>>) -> (r: Option<Vec<i32>>) {
    match rx.try_recv() {
        Ok(block) => Some(block),
        Err(_) => None,
    }
}

/// One whole capture callback: drop the block while not recording, else
/// down-mix, resample, and offer the result to the writer's queue without
/// blocking. Returns whether a block was handed to the queue; a full or
/// closed queue loses the block by design.
pub fn forward_block(
    tx: &Sender<Vec<i32>>,
    recording: bool,
    data: &Vec<i32>,
    channels: u16,
    target_rate: u32,
    source_rate: u32,
) -> (sent: bool)
    requires
        source_rate >= 1,
        resampled_len(data@.len() as int, target_rate as int, source_rate as int) <= usize::MAX,
    ensures
        !recording ==> !sent,
{
    match process_capture_block(recording, data, channels, target_rate, source_rate) {
        Some(block) => try_send_block(tx, block),
        None => false,
    }
}

/// One writer tick for one channel: drain at most one block from the
/// queue into the matching backlog of the synchronizer. The other backlog
/// and the frame count are untouched, and nothing changes when the queue
/// had nothing to offer.
pub fn drain_block_into(
    rx: &Receiver<Vec<i32>>,
    buffer: &mut StereoFrameBuffer,
    mic_side: bool,
) -> (got: bool)
    ensures
        !got ==> *final(buffer) == *old(buffer),
        final(buffer).samples_written == old(buffer).samples_written,
        got && mic_side ==> final(buffer).right_buffer == old(buffer).right_buffer && (exists|
            b: Seq<i32>,
        |
            final(buffer).left_buffer@ == old(buffer).left_buffer@ + b),
        got && !mic_side ==> final(buffer).left_buffer == old(buffer).left_buffer && (exists|
            b: Seq<i32>,
        |
            final(buffer).right_buffer@ == old(buffer).right_buffer@ + b),
{
    match try_recv_block(rx) {
        Some(block) => {
            if mic_side {
                buffer.buffer_left(&block);
                assert(buffer.left_buffer@ == old(buffer).left_buffer@ + block@);
            } else {
                buffer.buffer_right(&block);
                assert(buffer.right_buffer@ == old(buffer).right_buffer@ + block@);
            }
            true
        },
        None => false,
    }
}

} // verus!

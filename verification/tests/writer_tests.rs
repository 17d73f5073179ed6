use wizscribe::sample::{quantize, quantize_block, SAMPLE_UNIT};
use wizscribe::writer::StereoFrameBuffer;

#[test]
fn silence_substitution_five_left_zero_right() {
    let mut buffer = StereoFrameBuffer::new();
    buffer.buffer_left(&vec![1000, 2000, 3000, 4000, 5000]);
    let frames = buffer.flush_buffers();
    assert_eq!(frames.len(), 5);
    for frame in &frames {
        assert_eq!(frame.right, 0);
    }
    assert_eq!(frames[0].left, quantize(1000));
    assert_eq!(buffer.samples_written, 5);
}

#[test]
fn flush_pads_shorter_side() {
    let mut buffer = StereoFrameBuffer::new();
    buffer.buffer_left(&vec![100, 200]);
    buffer.buffer_right(&vec![300, 400, 500]);
    let frames = buffer.flush_buffers();
    assert_eq!(frames.len(), 3);
    assert_eq!(frames[2].left, 0);
    assert_eq!(frames[2].right, quantize(500));
}

#[test]
fn flush_empties_buffers_and_counts() {
    let mut buffer = StereoFrameBuffer::new();
    buffer.buffer_left(&vec![1, 2]);
    buffer.buffer_right(&vec![3]);
    let first = buffer.flush_buffers();
    assert_eq!(first.len(), 2);
    let second = buffer.flush_buffers();
    assert_eq!(second.len(), 0);
    assert_eq!(buffer.samples_written, 2);
}

#[test]
fn clamping_out_of_range_sample() {
    // 2.0 in fixed point is twice full scale: it must saturate at the
    // maximum quantized value, never wrap
    let mut buffer = StereoFrameBuffer::new();
    let frame = buffer.write_frame(2 * SAMPLE_UNIT, -2 * SAMPLE_UNIT);
    assert_eq!(frame.left, 32767);
    assert_eq!(frame.right, -32767);
    assert_eq!(buffer.samples_written, 1);
}

#[test]
fn clamping_through_flush() {
    let mut buffer = StereoFrameBuffer::new();
    buffer.buffer_left(&vec![2 * SAMPLE_UNIT]);
    let frames = buffer.flush_buffers();
    assert_eq!(frames.len(), 1);
    assert_eq!(frames[0].left, 32767);
    assert_eq!(frames[0].right, 0);
}

#[test]
fn quantize_exact_values() {
    assert_eq!(quantize(SAMPLE_UNIT), 32767);
    assert_eq!(quantize(-SAMPLE_UNIT), -32767);
    assert_eq!(quantize(0), 0);
    // 0.5 of full scale: trunc(16384 * 32767 / 32768) = 16383
    assert_eq!(quantize(SAMPLE_UNIT / 2), 16383);
    assert_eq!(quantize(i32::MAX), 32767);
    assert_eq!(quantize(i32::MIN), -32767);
}

#[test]
fn quantize_block_pointwise() {
    let out = quantize_block(&vec![SAMPLE_UNIT, -SAMPLE_UNIT, 0, 3 * SAMPLE_UNIT]);
    assert_eq!(out, vec![32767, -32767, 0, 32767]);
}

#[test]
fn interleaving_order_is_fifo() {
    let mut buffer = StereoFrameBuffer::new();
    buffer.buffer_left(&vec![10, 20]);
    buffer.buffer_right(&vec![30, 40]);
    let frames = buffer.flush_buffers();
    assert_eq!(frames.len(), 2);
    assert_eq!(frames[0].left, quantize(10));
    assert_eq!(frames[0].right, quantize(30));
    assert_eq!(frames[1].left, quantize(20));
    assert_eq!(frames[1].right, quantize(40));
}

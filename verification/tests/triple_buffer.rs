use scanline_sync::frame::{FrameData, FRAMEBUFFER_LEN};
use scanline_sync::triple_buffer::init;

#[test]
fn get_without_send_is_none() {
    let mut tb = init(1u32, 2, 3);
    assert!(tb.get().is_none());
    assert!(tb.get().is_none());
}

#[test]
fn get_yields_most_recent_send() {
    let mut tb = init(0u32, 0, 0);
    tb.send(10);
    tb.send(20);
    // two sends, one get: only the most recent value is ever seen
    assert_eq!(tb.get().copied(), Some(20));
    // no new send since: nothing
    assert!(tb.get().is_none());
    tb.send(30);
    assert_eq!(tb.get().copied(), Some(30));
}

#[test]
fn interleaved_sends_and_gets_stay_fresh() {
    let mut tb = init(0u32, 0, 0);
    let mut expected: u32 = 0;
    for round in 1u32..=20 {
        tb.send(round);
        if round % 3 == 0 {
            tb.send(round + 100);
            expected = round + 100;
        } else {
            expected = round;
        }
        assert_eq!(tb.get().copied(), Some(expected));
        assert!(tb.get().is_none());
    }
    let _ = expected;
}

#[test]
fn send_returns_stale_slot_for_reuse() {
    let mut tb = init(1u32, 2, 3);
    // the producer gets back the slot it may now rewrite
    assert_eq!(tb.send(40), 1);
    assert_eq!(tb.send(50), 2);
    assert_eq!(tb.get().copied(), Some(50));
}

#[test]
fn reset_clears_pending_value() {
    let mut tb = init(1u32, 2, 3);
    tb.send(9);
    tb.reset(0, 0, 0);
    assert!(tb.get().is_none());
    tb.send(7);
    assert_eq!(tb.get().copied(), Some(7));
}

#[test]
fn frame_data_through_triple_buffer() {
    let mut tb = init(FrameData::cleared(), FrameData::cleared(), FrameData::cleared());
    let mut f = FrameData::cleared();
    f.fps_milli = 59_826;
    f.fb[0] = 0xffff_ffff;
    f.fb[FRAMEBUFFER_LEN - 1] = 0x1234_5678;
    let stale = tb.send(f.clone());
    assert_eq!(stale.fps_milli, 0);
    let got = tb.get().expect("a frame was sent");
    assert_eq!(got.fps_milli, 59_826);
    assert_eq!(got.fb[0], 0xffff_ffff);
    assert_eq!(got.fb[FRAMEBUFFER_LEN - 1], 0x1234_5678);
    assert_eq!(got.fb.len(), FRAMEBUFFER_LEN);
}

use grabber::BufferKind;
use grabber::FrameDropReason;
use grabber::FrameOutcome;
use grabber::FrameSlot;
use grabber::Grabber;

fn fresh_grabber() -> Grabber {
    Grabber::new(0, FrameSlot::new())
}

#[test]
fn slot_starts_empty() {
    let slot = FrameSlot::new();
    assert_eq!(slot.len(), 0);
    assert!(slot.latest().is_empty());
}

#[test]
fn slot_publish_replaces_whole_contents() {
    let mut slot = FrameSlot::new();
    slot.publish(vec![1u8; 16]);
    assert_eq!(slot.len(), 16);
    assert_eq!(slot.latest(), &vec![1u8; 16]);
    // A shorter frame fully replaces the longer one: no stale tail bytes.
    slot.publish(vec![2u8; 8]);
    assert_eq!(slot.len(), 8);
    assert_eq!(slot.latest(), &vec![2u8; 8]);
}

#[test]
fn non_video_buffer_is_dropped_uncounted() {
    let mut g = fresh_grabber();
    let data = vec![0u8; 64];
    let r = g.handle_frame(BufferKind::Other, 4, 4, &data);
    assert_eq!(r, FrameOutcome::Dropped(FrameDropReason::BadBufferType));
    assert_eq!(g.delegate.frame_count, 0);
    assert_eq!(g.latest_frame().len(), 0);
}

#[test]
fn zero_dimension_frame_is_counted_not_published() {
    let mut g = fresh_grabber();
    let data = vec![0u8; 64];
    for i in 1..=10u64 {
        let r = g.handle_frame(BufferKind::Video, 0, 4, &data);
        assert_eq!(r, FrameOutcome::Dropped(FrameDropReason::ZeroDimensions));
        assert_eq!(g.delegate.frame_count, i);
    }
    assert_eq!(g.latest_frame().len(), 0);
}

#[test]
fn short_buffer_on_sampled_frame_is_dropped() {
    let mut g = fresh_grabber();
    let data = vec![0u8; 63];
    for _ in 1..=9u64 {
        let r = g.handle_frame(BufferKind::Video, 4, 4, &data);
        assert_eq!(r, FrameOutcome::NotSampled);
    }
    // Frame 10 is sampled, but 4 * 4 * 4 = 64 bytes are not available.
    let r = g.handle_frame(BufferKind::Video, 4, 4, &data);
    assert_eq!(r, FrameOutcome::Dropped(FrameDropReason::ShortBuffer));
    assert_eq!(g.delegate.frame_count, 10);
    assert_eq!(g.latest_frame().len(), 0);
}

#[test]
fn sampled_frame_copies_exact_prefix() {
    let mut g = fresh_grabber();
    // 2 x 2 pixels need 16 bytes; supply 20 and expect only 16 copied.
    let data: Vec<u8> = (0u8..20).collect();
    for _ in 1..=9u64 {
        g.handle_frame(BufferKind::Video, 2, 2, &data);
    }
    let r = g.handle_frame(BufferKind::Video, 2, 2, &data);
    assert_eq!(r, FrameOutcome::Published);
    let expected: Vec<u8> = (0u8..16).collect();
    assert_eq!(g.latest_frame(), &expected);
}

#[test]
fn sampling_scenario_25_frames() {
    let mut g = fresh_grabber();
    let mut publishes = Vec::new();
    for i in 1..=25u64 {
        let data = vec![i as u8; 100 * 100 * 4];
        let r = g.handle_frame(BufferKind::Video, 100, 100, &data);
        if r == FrameOutcome::Published {
            publishes.push(i);
            assert_eq!(g.latest_frame().len(), 40000);
            assert_eq!(g.latest_frame()[0], i as u8);
        } else {
            assert_eq!(r, FrameOutcome::NotSampled);
        }
    }
    assert_eq!(publishes, vec![10, 20]);
    assert_eq!(g.delegate.frame_count, 25);
    assert_eq!(g.latest_frame().len(), 40000);
}

#[test]
fn frames_in_flight_after_halt_are_discarded() {
    let mut g = fresh_grabber();
    g.start();
    g.step(grabber::SessionEvent::WindowsFailed);
    let data = vec![1u8; 100 * 100 * 4];
    for _ in 0..10 {
        let r = g.handle_frame(BufferKind::Video, 100, 100, &data);
        assert_eq!(r, FrameOutcome::Dropped(FrameDropReason::SessionHalted));
    }
    assert_eq!(g.delegate.frame_count, 0);
    assert_eq!(g.latest_frame().len(), 0);

    // Stopping discards frames the same way.
    let mut g = fresh_grabber();
    g.start();
    assert!(g.stop() == grabber::SessionAction::StopCapture);
    assert_eq!(g.phase, grabber::SessionPhase::Stopping);
    let r = g.handle_frame(BufferKind::Video, 100, 100, &data);
    assert_eq!(r, FrameOutcome::Dropped(FrameDropReason::SessionHalted));
    assert_eq!(g.delegate.frame_count, 0);
}

#[test]
fn sampling_rate_over_30_frames() {
    let mut g = fresh_grabber();
    let data = vec![7u8; 4];
    let mut publishes = Vec::new();
    for i in 1..=30u64 {
        let r = g.handle_frame(BufferKind::Video, 1, 1, &data);
        if r == FrameOutcome::Published {
            publishes.push(i);
        }
    }
    assert_eq!(publishes, vec![10, 20, 30]);
}

use voxel_explore::frames::{DrawFrameIter, DrawOutcome, FrameAttempt, FrameFollowUp, MAX_FRAMES_IN_FLIGHT};

#[test]
fn starts_at_the_first_frame() {
    let it = DrawFrameIter::<100>::default();
    assert_eq!(it.frame_index(), 0);
    assert_eq!(MAX_FRAMES_IN_FLIGHT, 5);
}

#[test]
fn presented_frames_cycle_through_the_frames_in_flight() {
    let mut it = DrawFrameIter::<3>::new();
    let mut seen = Vec::new();
    for _ in 0..12 {
        match it.attempt_next_frame() {
            FrameAttempt::Draw { frame_index } => seen.push(frame_index),
            FrameAttempt::RetryCapExceeded => panic!("cap reached too early"),
        }
        assert_eq!(it.record_frame_outcome(DrawOutcome::Presented), FrameFollowUp::UseCurrentAspect);
    }
    assert_eq!(seen, vec![0, 1, 2, 3, 4, 0, 1, 2, 3, 4, 0, 1]);
    assert_eq!(it.frame_index(), 2);
}

#[test]
fn out_of_date_swapchain_redraws_the_same_frame() {
    let mut it = DrawFrameIter::<100>::new();
    assert_eq!(it.attempt_next_frame(), FrameAttempt::Draw { frame_index: 0 });
    assert_eq!(it.record_frame_outcome(DrawOutcome::Presented), FrameFollowUp::UseCurrentAspect);
    assert_eq!(it.attempt_next_frame(), FrameAttempt::Draw { frame_index: 1 });
    assert_eq!(it.record_frame_outcome(DrawOutcome::SwapchainOutOfDate), FrameFollowUp::RecreateSwapchain);
    assert_eq!(it.attempt_next_frame(), FrameAttempt::Draw { frame_index: 1 });
}

#[test]
fn a_failed_draw_aborts() {
    let mut it = DrawFrameIter::<100>::new();
    assert_eq!(it.attempt_next_frame(), FrameAttempt::Draw { frame_index: 0 });
    assert_eq!(it.record_frame_outcome(DrawOutcome::Failed), FrameFollowUp::Abort);
    assert_eq!(it.frame_index(), 0);
}

#[test]
fn a_frame_is_attempted_at_most_cap_times() {
    let mut it = DrawFrameIter::<3>::new();
    for _ in 0..3 {
        assert_eq!(it.attempt_next_frame(), FrameAttempt::Draw { frame_index: 0 });
        assert_eq!(it.record_frame_outcome(DrawOutcome::SwapchainOutOfDate), FrameFollowUp::RecreateSwapchain);
    }
    assert_eq!(it.attempt_next_frame(), FrameAttempt::RetryCapExceeded);
    assert_eq!(it.attempt_next_frame(), FrameAttempt::RetryCapExceeded);
}

#[test]
fn a_cap_of_zero_allows_no_attempt() {
    let mut it = DrawFrameIter::<0>::new();
    assert_eq!(it.attempt_next_frame(), FrameAttempt::RetryCapExceeded);
}

#[test]
fn the_next_frame_starts_its_count_afresh() {
    let mut it = DrawFrameIter::<2>::new();
    // Use up both attempts of frame 0, presenting on the second.
    assert_eq!(it.attempt_next_frame(), FrameAttempt::Draw { frame_index: 0 });
    it.record_frame_outcome(DrawOutcome::SwapchainOutOfDate);
    assert_eq!(it.attempt_next_frame(), FrameAttempt::Draw { frame_index: 0 });
    it.record_frame_outcome(DrawOutcome::Presented);
    // Frame 1 has both of its attempts.
    assert_eq!(it.attempt_next_frame(), FrameAttempt::Draw { frame_index: 1 });
    it.record_frame_outcome(DrawOutcome::SwapchainOutOfDate);
    assert_eq!(it.attempt_next_frame(), FrameAttempt::Draw { frame_index: 1 });
    it.record_frame_outcome(DrawOutcome::SwapchainOutOfDate);
    assert_eq!(it.attempt_next_frame(), FrameAttempt::RetryCapExceeded);
}

#[test]
fn presenting_frame_four_wraps_to_frame_zero_with_a_fresh_count() {
    let mut it = DrawFrameIter::<1>::new();
    for expected in 0..5 {
        assert_eq!(it.attempt_next_frame(), FrameAttempt::Draw { frame_index: expected });
        it.record_frame_outcome(DrawOutcome::Presented);
    }
    // Frame 0 was attempted once before, but becoming current again resets it.
    assert_eq!(it.attempt_next_frame(), FrameAttempt::Draw { frame_index: 0 });
}

use graphicx::error::Error;
use graphicx::fence::Fence;
use graphicx::frame::{FrameLoop, FramePhase};

#[test]
fn signal_values_strictly_increase() {
    let mut fl = FrameLoop::new(3, 1280, 720);
    let v1 = fl.signal();
    let v2 = fl.signal();
    let v3 = fl.signal();
    assert_eq!(v1, 1);
    assert_eq!(v2, 2);
    assert_eq!(v3, 3);
    assert!(v1 < v2 && v2 < v3);
}

#[test]
fn fence_starts_at_zero_and_rises() {
    let mut fence = Fence::new();
    assert_eq!(fence.get_value(), 0);
    assert!(fence.is_reached(0));
    assert!(!fence.is_reached(1));
    fence.signal(5);
    assert_eq!(fence.get_value(), 5);
    assert!(fence.is_reached(5));
    let seeded = Fence::with_value(7);
    assert_eq!(seeded.get_value(), 7);
}

fn drive_one_frame(fl: &mut FrameLoop, fence: &mut Fence) -> u64 {
    let reached = fl.wait_until(fence, fl.frame_fence_values[fl.current_index]);
    assert!(reached);
    assert!(fl.begin_frame(fence).is_ok());
    let open = fl.transition_to_render_target();
    assert_eq!(open.index, fl.current_index);
    let close = fl.transition_to_present();
    assert_eq!(close.index, fl.current_index);
    fl.submit();
    fl.present();
    fl.finish_frame()
}

#[test]
fn no_reset_before_the_matching_tick() {
    let mut fl = FrameLoop::new(2, 1280, 720);
    let mut fence = Fence::new();
    // Two frames fill both slots; nothing has completed on the fake GPU.
    assert_eq!(drive_one_frame(&mut fl, &mut fence), 1);
    assert_eq!(drive_one_frame(&mut fl, &mut fence), 2);
    assert_eq!(fl.current_index, 0);
    assert_eq!(fl.frame_fence_values[0], 1);
    // Slot 0 is wanted again, but its fence value 1 has not completed:
    // the recorder reset is refused until the explicit tick arrives.
    assert_eq!(fl.begin_frame(&fence), Err(Error::SlotInFlight));
    assert_eq!(fl.phase, FramePhase::Idle);
    fence.signal(1);
    assert_eq!(fl.begin_frame(&fence), Ok(()));
    assert_eq!(fl.phase, FramePhase::Recording);
}

#[test]
fn resize_must_flush_before_release() {
    let mut fl = FrameLoop::new(3, 1280, 720);
    let mut fence = Fence::new();
    // One frame's submission is pending: signalled as value 1, completed 0.
    drive_one_frame(&mut fl, &mut fence);
    assert_eq!(fence.get_value(), 0);
    // Releasing the buffers with that work in flight is refused.
    assert_eq!(fl.release_buffers(&fence), Err(Error::QueueNotDrained));
    assert!(fl.buffers_live);
    // Only after the flush has drained the queue may the buffers go away.
    let target = fl.flush(&mut fence);
    assert_eq!(target, 1);
    assert_eq!(fence.get_value(), 1);
    assert_eq!(fl.release_buffers(&fence), Ok(()));
    assert!(!fl.buffers_live);
}

#[test]
fn flush_covers_unfenced_submission() {
    let mut fl = FrameLoop::new(3, 1280, 720);
    let mut fence = Fence::new();
    assert!(fl.begin_frame(&fence).is_ok());
    fl.transition_to_render_target();
    fl.transition_to_present();
    fl.submit();
    // The submission has no fence signal yet; the flush adds one.
    assert!(fl.unfenced);
    let target = fl.flush(&mut fence);
    assert_eq!(target, 1);
    assert!(!fl.unfenced);
    assert_eq!(fence.get_value(), 1);
}

#[test]
fn flush_twice_waits_for_the_same_target() {
    let mut fl = FrameLoop::new(3, 1280, 720);
    let mut fence = Fence::new();
    drive_one_frame(&mut fl, &mut fence);
    let first = fl.flush(&mut fence);
    let completed_after_first = fence.get_value();
    let second = fl.flush(&mut fence);
    assert_eq!(first, 1);
    assert_eq!(second, first);
    assert_eq!(fence.get_value(), completed_after_first);
}

#[test]
fn three_slot_ring_waits_on_the_wrapped_slot() {
    let mut fl = FrameLoop::new(3, 1280, 720);
    let mut fence = Fence::new();
    // Frames 1 to 3 fill the ring; their waits are on value 0 and block
    // nothing, so the fake GPU never moves.
    assert_eq!(drive_one_frame(&mut fl, &mut fence), 1);
    assert_eq!(fence.get_value(), 0);
    assert_eq!(drive_one_frame(&mut fl, &mut fence), 2);
    assert_eq!(fence.get_value(), 0);
    assert_eq!(drive_one_frame(&mut fl, &mut fence), 3);
    assert_eq!(fence.get_value(), 0);
    assert_eq!(fl.frame_fence_values, vec![1, 2, 3]);
    // Frame 4 wraps to the slot of frame 1 and must wait exactly for its
    // recorded value 1 before the reset.
    assert_eq!(fl.current_index, 0);
    assert_eq!(fl.frame_fence_values[fl.current_index], 1);
    assert_eq!(drive_one_frame(&mut fl, &mut fence), 4);
    assert_eq!(fence.get_value(), 1);
}

#[test]
fn composite_frame_matches_granular_frame() {
    let mut fl = FrameLoop::new(3, 1280, 720);
    let mut fence = Fence::new();
    assert_eq!(fl.render_frame(&mut fence), 1);
    assert_eq!(fl.frame_fence_values[0], 1);
    assert_eq!(fl.current_index, 1);
    assert_eq!(fl.render_frame(&mut fence), 2);
    assert_eq!(fl.render_frame(&mut fence), 3);
    assert_eq!(fl.render_frame(&mut fence), 4);
    assert_eq!(fl.frame_fence_values, vec![4, 2, 3]);
}

#[test]
fn resize_mid_loop_leaves_no_stale_entry() {
    let mut fl = FrameLoop::new(3, 1280, 720);
    let mut fence = Fence::new();
    fl.render_frame(&mut fence);
    fl.render_frame(&mut fence);
    // The client area shrinks mid-loop.
    fl.resize(&mut fence, 640, 480);
    assert_eq!(fl.width, 640);
    assert_eq!(fl.height, 480);
    let index = fl.acquire_current_index();
    assert!(index < 3);
    for slot in 0..3 {
        assert!(fl.frame_fence_values[slot] <= fence.get_value());
    }
    assert!(fl.buffers_live);
    // The loop keeps running after the resize.
    let v = fl.render_frame(&mut fence);
    assert_eq!(v, 3);
}

#[test]
fn resize_clamps_to_one_by_one() {
    let mut fl = FrameLoop::new(2, 100, 100);
    let mut fence = Fence::new();
    fl.resize(&mut fence, 0, 0);
    assert_eq!(fl.width, 1);
    assert_eq!(fl.height, 1);
}

#[test]
fn resize_surface_rejected_while_buffers_exist() {
    let mut fl = FrameLoop::new(2, 100, 100);
    assert!(fl.buffers_live);
    assert_eq!(fl.resize_surface(50, 50), Err(Error::ResizeSwapChainFailed));
    assert_eq!(fl.width, 100);
}

#[test]
fn normalize_copies_the_current_slot_value() {
    let mut fl = FrameLoop::new(3, 100, 100);
    let mut fence = Fence::new();
    fl.render_frame(&mut fence);
    fl.render_frame(&mut fence);
    // Slot values are [1, 2, 0] and the current slot is 2.
    assert_eq!(fl.frame_fence_values, vec![1, 2, 0]);
    assert_eq!(fl.current_index, 2);
    fl.normalize_fence_table();
    assert_eq!(fl.frame_fence_values, vec![0, 0, 0]);
}

#[test]
fn present_advances_the_surface_round_robin() {
    let mut fl = FrameLoop::new(2, 100, 100);
    let fence = Fence::new();
    assert_eq!(fl.surface_index, 0);
    assert!(fl.begin_frame(&fence).is_ok());
    fl.transition_to_render_target();
    fl.transition_to_present();
    fl.submit();
    fl.present();
    assert_eq!(fl.surface_index, 1);
    fl.finish_frame();
    assert_eq!(fl.current_index, 1);
}

#[test]
fn wait_until_refuses_unsubmitted_values() {
    let fl = FrameLoop::new(2, 100, 100);
    let mut fence = Fence::new();
    // Nothing was submitted: a wait on value 1 can never be satisfied and
    // reports the timeout instead of blocking.
    assert!(!fl.wait_until(&mut fence, 1));
    assert_eq!(fence.get_value(), 0);
    assert!(fl.wait_until(&mut fence, 0));
}

#[test]
fn wait_until_fast_path_on_a_completed_value() {
    let fl = FrameLoop::new(2, 100, 100);
    // A fence seeded past the loop's counter: the wait succeeds at once on
    // the completed value alone, and the fence is untouched.
    let mut fence = Fence::with_value(5);
    assert!(fl.wait_until(&mut fence, 3));
    assert_eq!(fence.get_value(), 5);
    assert!(fl.wait_until(&mut fence, 5));
    assert_eq!(fence.get_value(), 5);
    // Beyond both the completed value and the counter: timeout.
    assert!(!fl.wait_until(&mut fence, 6));
    assert_eq!(fence.get_value(), 5);
}

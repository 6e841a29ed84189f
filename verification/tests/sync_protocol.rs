use rhi_core::sync::FramePhase;
use rhi_core::sync::FrameSync;

fn outstanding(fs: &FrameSync) -> usize {
    fs.slot_busy.iter().filter(|b| **b).count()
}

/// One full successful render call against a scripted acquired image.
fn render_call(fs: &mut FrameSync, image: usize) -> usize {
    let slot = fs.frame_slot();
    fs.complete_throttle();
    fs.on_acquire_ok(image);
    if let Some(_older) = fs.image_wait_slot() {
        fs.complete_image_wait();
    }
    fs.claim();
    fs.submit();
    fs.on_present_ok();
    slot
}

#[test]
fn three_calls_walk_slots_round_robin() {
    // Two frames in flight, three images: three consecutive render calls
    // use frame slots 0, 1, 0 and three distinct images with no repeats
    // before a fence wait.
    let mut fs = FrameSync::new(2, 3);
    let mut slots = Vec::new();
    for image in [0usize, 1, 2] {
        slots.push(render_call(&mut fs, image));
    }
    assert_eq!(slots, vec![0, 1, 0]);
    // image 1's claim (slot 1) is still live; image 0 and 2 were claimed
    // by slot 0, whose later throttle wait cleared the first claim.
    assert_eq!(fs.images_in_flight[1], Some(1));
    assert_eq!(fs.images_in_flight[2], Some(0));
    assert_eq!(fs.images_in_flight[0], None);
}

#[test]
fn outstanding_submissions_never_exceed_frame_count() {
    let mut fs = FrameSync::new(2, 3);
    // Drive render faster than presentation completes: the fence throttle
    // keeps the queue depth at two or below at every step.
    for image in [0usize, 1, 2, 0, 1, 2, 0, 1, 2] {
        assert!(outstanding(&fs) <= 2);
        render_call(&mut fs, image);
        assert!(outstanding(&fs) <= 2);
    }
}

#[test]
fn claim_table_entry_lives_between_claim_and_fence_wait() {
    let mut fs = FrameSync::new(2, 3);
    assert!(fs.images_in_flight.iter().all(|e| e.is_none()));
    fs.complete_throttle();
    fs.on_acquire_ok(0);
    assert_eq!(fs.images_in_flight[0], None);
    fs.claim();
    assert_eq!(fs.images_in_flight[0], Some(0));
    fs.submit();
    assert!(fs.slot_busy[0]);
    fs.on_present_ok();
    // Next use of slot 0 waits its fence, which expires the claim.
    render_call(&mut fs, 1);
    assert_eq!(fs.frame_slot(), 0);
    fs.complete_throttle();
    assert_eq!(fs.images_in_flight[0], None);
    assert!(!fs.slot_busy[0]);
}

#[test]
fn cross_image_wait_expires_older_claim() {
    // Two slots, two images, and the driver hands image 0 out twice in a
    // row: the second call finds slot 0's claim still live and must wait
    // that fence before touching the image.
    let mut fs = FrameSync::new(2, 2);
    render_call(&mut fs, 0);
    assert_eq!(fs.images_in_flight[0], Some(0));
    assert_eq!(fs.frame_slot(), 1);
    fs.complete_throttle();
    // Slot 1 never submitted, so slot 0's claim on image 0 is still live.
    assert_eq!(fs.images_in_flight[0], Some(0));
    fs.on_acquire_ok(0);
    assert_eq!(fs.image_wait_slot(), Some(0));
    fs.complete_image_wait();
    assert_eq!(fs.images_in_flight[0], None);
    assert!(!fs.slot_busy[0]);
    fs.claim();
    assert_eq!(fs.images_in_flight[0], Some(1));
    fs.submit();
    fs.on_present_ok();
    assert_eq!(fs.frame_slot(), 0);
}

#[test]
fn single_slot_throttle_expires_its_own_claim() {
    // One frame in flight: the throttle wait on the only slot already
    // expires its previous claim, so no cross-image wait is ever needed.
    let mut fs = FrameSync::new(1, 2);
    render_call(&mut fs, 0);
    assert_eq!(fs.images_in_flight[0], Some(0));
    fs.complete_throttle();
    assert_eq!(fs.images_in_flight[0], None);
    fs.on_acquire_ok(0);
    assert_eq!(fs.image_wait_slot(), None);
    fs.claim();
    fs.submit();
    fs.on_present_ok();
}

#[test]
fn outdated_acquisition_recovers_without_error() {
    // Scenario: three good calls, then acquisition reports the surface
    // outdated on call four; recreate runs, and call five succeeds with
    // the caller never observing an error.
    let mut fs = FrameSync::new(2, 3);
    for image in [0usize, 1, 2] {
        render_call(&mut fs, image);
    }
    fs.complete_throttle();
    fs.on_acquire_out_of_date();
    assert_eq!(fs.phase, FramePhase::Ready);
    // Recreate: device waited idle, sync objects rebuilt for the new chain.
    fs.reset_for_recreate(3);
    assert_eq!(fs.frame_slot(), 0);
    assert_eq!(outstanding(&fs), 0);
    assert!(fs.images_in_flight.iter().all(|e| e.is_none()));
    let slot = render_call(&mut fs, 0);
    assert_eq!(slot, 0);
    assert_eq!(fs.frame_slot(), 1);
}

#[test]
fn present_invalidation_finishes_the_frame_first() {
    let mut fs = FrameSync::new(2, 3);
    fs.complete_throttle();
    fs.on_acquire_ok(0);
    fs.claim();
    fs.submit();
    // Present reports the surface suboptimal: the frame completed, the
    // call ends cleanly, and recreation follows before the next call.
    fs.on_present_invalidated();
    assert_eq!(fs.phase, FramePhase::Ready);
    fs.reset_for_recreate(2);
    assert_eq!(fs.frame_slot(), 0);
    render_call(&mut fs, 1);
}

#[test]
fn fatal_error_mid_call_expires_the_claim() {
    // A fatal device error between claim and submit abandons the call:
    // the claim expires and the machine is usable for the next attempt.
    let mut fs = FrameSync::new(2, 3);
    fs.complete_throttle();
    fs.on_acquire_ok(0);
    fs.claim();
    assert_eq!(fs.images_in_flight[0], Some(0));
    fs.abort_frame();
    assert_eq!(fs.phase, FramePhase::Ready);
    assert_eq!(fs.images_in_flight[0], None);
    assert_eq!(fs.frame_slot(), 0);
    render_call(&mut fs, 0);
}

#[test]
fn recreate_can_shrink_the_image_chain() {
    let mut fs = FrameSync::new(2, 4);
    render_call(&mut fs, 3);
    fs.reset_for_recreate(2);
    assert_eq!(fs.images_in_flight.len(), 2);
    render_call(&mut fs, 1);
}

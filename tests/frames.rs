use turtle::renderer::{FrameAction, FrameEvent, FramePhase, Renderer, MAX_FRAMES_IN_FLIGHT};
use turtle::sync_objects::SyncObjects;

fn in_flight(r: &Renderer) -> usize {
    r.sync_objects.in_flight.iter().filter(|b| **b).count()
}

/// Drives one frame that acquires `image`, answering every wait at once.
fn run_frame(r: &mut Renderer, image: u32) -> FrameAction {
    let slot = r.frame_index;
    assert_eq!(r.step(FrameEvent::Begin), FrameAction::WaitForFence { slot });
    assert_eq!(r.step(FrameEvent::FenceSignaled), FrameAction::AcquireImage { slot });
    let mut action = r.step(FrameEvent::ImageAcquired { image_index: image, suboptimal: false });
    if let FrameAction::WaitForFence { .. } = action {
        action = r.step(FrameEvent::FenceSignaled);
    }
    assert_eq!(action, FrameAction::Record { slot, image });
    assert_eq!(r.step(FrameEvent::Recorded), FrameAction::Submit { slot });
    assert_eq!(r.step(FrameEvent::Submitted), FrameAction::Present { slot, image });
    r.step(FrameEvent::Presented { suboptimal: false })
}

#[test]
fn sync_objects_start_idle() {
    let s = SyncObjects::new(3, 2);
    assert_eq!(s.max_frames_in_flight, 2);
    assert_eq!(s.in_flight, vec![false, false]);
    assert_eq!(s.images_in_flight, vec![None, None, None]);
}

#[test]
fn sync_objects_track_writers() {
    let mut s = SyncObjects::new(2, 2);
    s.submitted(1);
    s.claim_image(0, 1);
    assert_eq!(s.last_writer(0), Some(1));
    assert_eq!(s.last_writer(1), None);
    assert_eq!(s.in_flight, vec![false, true]);
    s.fence_signaled(1);
    assert_eq!(s.in_flight, vec![false, false]);
    s.device_idle(4);
    assert_eq!(s.images_in_flight, vec![None; 4]);
}

#[test]
fn one_full_frame() {
    let mut r = Renderer::new(3);
    assert_eq!(r.frame_index, 0);
    assert_eq!(run_frame(&mut r, 1), FrameAction::FrameDone { recreate: false });
    assert_eq!(r.frame_index, 1);
    assert_eq!(r.phase, FramePhase::Idle);
    assert_eq!(r.sync_objects.images_in_flight[1], Some(0));
    assert_eq!(in_flight(&r), 1);
}

#[test]
fn slots_alternate_and_in_flight_stays_bounded() {
    let mut r = Renderer::new(3);
    for frame in 0..10u32 {
        run_frame(&mut r, frame % 3);
        assert!(in_flight(&r) <= MAX_FRAMES_IN_FLIGHT);
    }
    assert_eq!(r.frame_index, 0);
    // the last frame rendered to image 0, whose previous writer was slot 0:
    // that wait saw slot 0's fence signaled, so only slot 1 is still in flight
    assert_eq!(in_flight(&r), 1);
    assert_eq!(r.sync_objects.in_flight, vec![false, true]);
}

#[test]
fn waits_for_last_writer_of_image() {
    let mut r = Renderer::new(2);
    run_frame(&mut r, 0);
    // slot 1 acquires image 0, still being written by slot 0
    assert_eq!(r.step(FrameEvent::Begin), FrameAction::WaitForFence { slot: 1 });
    assert_eq!(r.step(FrameEvent::FenceSignaled), FrameAction::AcquireImage { slot: 1 });
    assert_eq!(
        r.step(FrameEvent::ImageAcquired { image_index: 0, suboptimal: false }),
        FrameAction::WaitForFence { slot: 0 }
    );
    assert_eq!(r.step(FrameEvent::FenceSignaled), FrameAction::Record { slot: 1, image: 0 });
    assert_eq!(r.sync_objects.images_in_flight[0], Some(1));
    assert_eq!(r.sync_objects.in_flight, vec![false, false]);
}

#[test]
fn out_of_date_on_acquire_requests_recreate() {
    let mut r = Renderer::new(2);
    r.step(FrameEvent::Begin);
    r.step(FrameEvent::FenceSignaled);
    assert_eq!(r.step(FrameEvent::OutOfDate), FrameAction::FrameDone { recreate: true });
    assert_eq!(r.frame_index, 0);
    assert_eq!(r.phase, FramePhase::Idle);
    assert!(r.swapchain_recreated(4));
    assert_eq!(r.sync_objects.images_in_flight.len(), 4);
}

#[test]
fn suboptimal_results_request_recreate() {
    let mut r = Renderer::new(2);
    r.step(FrameEvent::Begin);
    r.step(FrameEvent::FenceSignaled);
    r.step(FrameEvent::ImageAcquired { image_index: 1, suboptimal: true });
    r.step(FrameEvent::Recorded);
    r.step(FrameEvent::Submitted);
    assert_eq!(r.step(FrameEvent::Presented { suboptimal: false }), FrameAction::FrameDone { recreate: true });

    r.step(FrameEvent::Begin);
    r.step(FrameEvent::FenceSignaled);
    r.step(FrameEvent::ImageAcquired { image_index: 0, suboptimal: false });
    r.step(FrameEvent::Recorded);
    r.step(FrameEvent::Submitted);
    assert_eq!(r.step(FrameEvent::Presented { suboptimal: true }), FrameAction::FrameDone { recreate: true });
    assert_eq!(r.frame_index, 0);
}

#[test]
fn out_of_date_on_present_ends_frame() {
    let mut r = Renderer::new(2);
    r.step(FrameEvent::Begin);
    r.step(FrameEvent::FenceSignaled);
    r.step(FrameEvent::ImageAcquired { image_index: 0, suboptimal: false });
    r.step(FrameEvent::Recorded);
    r.step(FrameEvent::Submitted);
    assert_eq!(r.step(FrameEvent::OutOfDate), FrameAction::FrameDone { recreate: true });
    assert_eq!(r.frame_index, 1);
    assert!(r.swapchain_recreated(2));
    assert_eq!(in_flight(&r), 0);
}

#[test]
fn failure_halts() {
    let mut r = Renderer::new(2);
    r.step(FrameEvent::Begin);
    assert_eq!(r.step(FrameEvent::Failed), FrameAction::Abort);
    assert_eq!(r.phase, FramePhase::Halted);
    assert_eq!(r.step(FrameEvent::Begin), FrameAction::Abort);
    assert!(!r.swapchain_recreated(2));
}

#[test]
fn unexpected_event_halts() {
    let mut r = Renderer::new(2);
    assert_eq!(r.step(FrameEvent::Recorded), FrameAction::Abort);
    assert_eq!(r.phase, FramePhase::Halted);
}

#[test]
fn image_index_out_of_range_halts() {
    let mut r = Renderer::new(2);
    r.step(FrameEvent::Begin);
    r.step(FrameEvent::FenceSignaled);
    assert_eq!(r.step(FrameEvent::ImageAcquired { image_index: 2, suboptimal: false }), FrameAction::Abort);
}

#[test]
fn recreate_refused_mid_frame() {
    let mut r = Renderer::new(2);
    r.step(FrameEvent::Begin);
    assert!(!r.swapchain_recreated(3));
    assert_eq!(r.sync_objects.images_in_flight.len(), 2);
    assert_eq!(r.phase, FramePhase::WaitingSlot);
}

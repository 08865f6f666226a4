use kelsier::error::EngineError;
use kelsier::frame::{acquire_error, FrameAction, FrameState, ERROR_OUT_OF_DATE};

#[test]
fn default_state_has_no_image_in_flight() {
    let s = FrameState::default(3, 2);
    assert_eq!(s.current_frame(), 0);
    assert_eq!(s.frames_in_flight(), 2);
    assert_eq!(s.image_count(), 3);
    for i in 0..3 {
        assert_eq!(s.image_in_flight(i), None);
    }
}

#[test]
fn five_acquires_over_three_images_two_slots() {
    let mut s = FrameState::default(3, 2);
    let acquired = [0u32, 1, 2, 0, 1];
    let mut submits = 0;
    let mut presents = 0;
    let mut waits = Vec::new();
    for &image in acquired.iter() {
        let slot = s.current_frame();
        let action = s.acquire_image(image).unwrap();
        assert_eq!(action.frame_slot, slot);
        assert_eq!(action.image_index, image);
        waits.push(action.wait_slot);
        submits += 1;
        s.frame_presented(false).unwrap();
        presents += 1;
    }
    assert_eq!(submits, 5);
    assert_eq!(presents, 5);
    // Image 0 is reacquired by slot 1 while slot 0's frame may still run, and
    // image 1 by slot 0 while slot 1's may: both are waited on.
    assert_eq!(waits, vec![None, None, None, Some(0), Some(1)]);
    assert_eq!(s.image_in_flight(0), Some(1));
    assert_eq!(s.image_in_flight(1), Some(0));
    assert_eq!(s.image_in_flight(2), Some(0));
    assert_eq!(s.current_frame(), 1);
}

#[test]
fn slot_returns_after_frames_in_flight_ticks() {
    let mut s = FrameState::default(4, 3);
    for &image in [2u32, 0, 3].iter() {
        s.acquire_image(image).unwrap();
        s.frame_presented(false).unwrap();
    }
    assert_eq!(s.current_frame(), 0);
}

#[test]
fn equal_counts_pair_each_image_with_its_slot() {
    let mut s = FrameState::default(2, 2);
    for _ in 0..6 {
        let slot = s.current_frame() as u32;
        let action = s.acquire_image(slot).unwrap();
        assert_eq!(action.wait_slot, None);
        s.frame_presented(false).unwrap();
    }
    assert_eq!(s.image_in_flight(0), Some(0));
    assert_eq!(s.image_in_flight(1), Some(1));
}

#[test]
fn more_images_than_slots_waits_on_recorded_fence() {
    let mut s = FrameState::default(4, 2);
    s.acquire_image(3).unwrap();
    s.frame_presented(false).unwrap();
    let action = s.acquire_image(3).unwrap();
    assert_eq!(
        action,
        FrameAction { image_index: 3, frame_slot: 1, wait_slot: Some(0) }
    );
}

#[test]
fn same_slot_reacquiring_needs_no_second_wait() {
    let mut s = FrameState::default(3, 1);
    s.acquire_image(1).unwrap();
    s.frame_presented(false).unwrap();
    let action = s.acquire_image(1).unwrap();
    assert_eq!(action.wait_slot, None);
    assert_eq!(action.frame_slot, 0);
}

#[test]
fn unknown_image_index_is_refused() {
    let mut s = FrameState::default(2, 2);
    assert_eq!(s.acquire_image(2), Err(EngineError::ImageIndexOutOfRange));
    assert_eq!(s.image_in_flight(0), None);
    assert_eq!(s.image_in_flight(1), None);
    assert_eq!(s.current_frame(), 0);
}

#[test]
fn suboptimal_present_keeps_current_slot() {
    let mut s = FrameState::default(2, 2);
    s.acquire_image(0).unwrap();
    assert_eq!(s.frame_presented(true), Err(EngineError::SwapchainInvalid));
    assert_eq!(s.current_frame(), 0);
    assert_eq!(s.image_in_flight(0), Some(0));
    assert_eq!(s.swapchain_image_index(), 0);
}

#[test]
fn acquire_errors_are_classified() {
    assert_eq!(acquire_error(ERROR_OUT_OF_DATE), EngineError::SwapchainOutOfDate);
    assert_eq!(acquire_error(-4), EngineError::AcquireFailed(-4));
}

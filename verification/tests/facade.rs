//! Tests of the capturer facade driven by the simulated backend.

use captis::frame::normalize;
use captis::Capturer;
use captis::Display;
use captis::DisplayCapturer;
use captis::Error;
use captis::RawFrame;
use captis::SimBackend;

/// A well-formed frame for a `width x height` display whose rows carry
/// `extra` alignment bytes, every byte derived from its offset.
fn patterned_frame(width: u16, height: u16, extra: usize) -> RawFrame {
    let stride = 4 * width as usize + extra;
    let len = stride * height as usize;
    let data: Vec<u8> = (0..len).map(|o| (o % 251) as u8).collect();
    RawFrame::new(width, height, stride, data).expect("well-formed frame")
}

fn zero_frame(width: u16, height: u16) -> RawFrame {
    let stride = 4 * width as usize;
    RawFrame::new(width, height, stride, vec![0; stride * height as usize])
        .expect("well-formed frame")
}

fn small_setup() -> (Vec<Display>, Vec<RawFrame>) {
    let displays = vec![
        Display::new(0, 0, 2, 2),
        Display::new(0, 2, 3, 1),
        Display::new(2, 0, 1, 4),
    ];
    let frames = vec![
        patterned_frame(2, 2, 0),
        patterned_frame(3, 1, 4),
        patterned_frame(1, 4, 8),
    ];
    (displays, frames)
}

fn capturer_over(
    displays: Vec<Display>,
    frames: Vec<RawFrame>,
    fail_grab: Vec<bool>,
    primary: usize,
) -> DisplayCapturer<SimBackend> {
    let sim = SimBackend::new(displays, frames, fail_grab, false, primary)
        .expect("consistent simulated backend");
    DisplayCapturer::new(sim).expect("enumeration succeeds")
}

#[test]
fn displays_reports_the_enumerated_list_in_order() {
    let (displays, frames) = small_setup();
    let c = capturer_over(displays.clone(), frames, vec![false; 3], 0);
    assert_eq!(c.displays(), displays.as_slice());
}

#[test]
fn capture_all_matches_displays_in_length_and_order() {
    let (displays, frames) = small_setup();
    let expected: Vec<Vec<u8>> = frames.iter().map(|f| normalize(f).as_raw().clone()).collect();
    let c = capturer_over(displays.clone(), frames, vec![false; 3], 0);
    let images = c.capture_all().expect("every capture succeeds");
    assert_eq!(images.len(), c.displays().len());
    for (i, img) in images.iter().enumerate() {
        assert_eq!(img.width(), displays[i].width() as u32);
        assert_eq!(img.height(), displays[i].height() as u32);
        assert_eq!(img.as_raw(), &expected[i]);
    }
}

#[test]
fn capture_all_fails_as_a_whole_when_one_display_fails() {
    let (displays, frames) = small_setup();
    // The second of the three displays refuses its grab.
    let c = capturer_over(displays, frames, vec![false, true, false], 0);
    let r = c.capture_all();
    assert_eq!(r.err(), Some(Error::CaptureFailed));
    // The constituent captures behave individually as scripted.
    assert!(c.capture(0).is_ok());
    assert_eq!(c.capture(1).err(), Some(Error::CaptureFailed));
    assert!(c.capture(2).is_ok());
}

#[test]
fn failed_refresh_preserves_the_stored_list() {
    let (displays, frames) = small_setup();
    let sim = SimBackend::new(displays.clone(), frames, vec![false; 3], true, 0)
        .expect("consistent simulated backend");
    let mut c = DisplayCapturer::from_parts(sim, displays.clone())
        .expect("displays all have extent");
    let before: Vec<Display> = c.displays().to_vec();
    assert_eq!(c.refresh_displays().err(), Some(Error::EnumerationFailed));
    assert_eq!(c.displays(), before.as_slice());
    assert_eq!(c.displays(), displays.as_slice());
}

#[test]
fn successful_refresh_replaces_the_list_wholesale() {
    let (displays, frames) = small_setup();
    let stale = vec![Display::new(9, 9, 7, 7)];
    let sim = SimBackend::new(displays.clone(), frames, vec![false; 3], false, 0)
        .expect("consistent simulated backend");
    let mut c = DisplayCapturer::from_parts(sim, stale.clone()).expect("display has extent");
    assert_eq!(c.displays(), stale.as_slice());
    assert!(c.refresh_displays().is_ok());
    assert_eq!(c.displays(), displays.as_slice());
}

#[test]
fn failed_initial_enumeration_fails_construction() {
    let (displays, frames) = small_setup();
    let sim = SimBackend::new(displays, frames, vec![false; 3], true, 0)
        .expect("consistent simulated backend");
    assert_eq!(DisplayCapturer::new(sim).err(), Some(Error::EnumerationFailed));
}

#[test]
fn out_of_range_index_is_refused_without_clamping() {
    let (displays, frames) = small_setup();
    let c = capturer_over(displays, frames, vec![false; 3], 0);
    assert_eq!(c.capture(3).err(), Some(Error::IndexOutOfRange));
    assert_eq!(c.capture(usize::MAX).err(), Some(Error::IndexOutOfRange));
}

#[test]
fn capture_of_index_zero_equals_custom_capture_of_first_display() {
    let (displays, frames) = small_setup();
    let c = capturer_over(displays.clone(), frames, vec![false; 3], 0);
    let by_index = c.capture(0).expect("in range and not scripted to fail");
    let by_region = c.capture_custom(displays[0]).expect("same region");
    assert_eq!(by_index.width(), by_region.width());
    assert_eq!(by_index.height(), by_region.height());
    assert_eq!(by_index.as_raw(), by_region.as_raw());
}

#[test]
fn degenerate_custom_capture_yields_defined_empty_image() {
    let (displays, frames) = small_setup();
    let c = capturer_over(displays, frames, vec![false; 3], 0);
    let no_width = c.capture_custom(Display::new(0, 0, 0, 100)).expect("defined-empty");
    assert_eq!(no_width.width(), 0);
    assert_eq!(no_width.height(), 100);
    assert_eq!(no_width.as_raw().len(), 0);
    let no_height = c.capture_custom(Display::new(5, 5, 100, 0)).expect("defined-empty");
    assert_eq!(no_height.width(), 100);
    assert_eq!(no_height.height(), 0);
    assert_eq!(no_height.as_raw().len(), 0);
}

#[test]
fn custom_capture_of_unknown_region_fails_like_a_vanished_display() {
    let (displays, frames) = small_setup();
    let c = capturer_over(displays, frames, vec![false; 3], 0);
    let r = c.capture_custom(Display::new(100, 100, 5, 5));
    assert_eq!(r.err(), Some(Error::CaptureFailed));
}

#[test]
fn two_display_scenario_reports_sizes_and_primary() {
    let displays = vec![Display::new(0, 0, 1920, 1080), Display::new(0, 1920, 1280, 1024)];
    let frames = vec![zero_frame(1920, 1080), zero_frame(1280, 1024)];
    let c = capturer_over(displays.clone(), frames, vec![false, false], 1);
    assert_eq!(c.displays(), displays.as_slice());
    let images = c.capture_all().expect("both captures succeed");
    assert_eq!(images.len(), 2);
    assert_eq!(images[0].as_raw().len(), 1920 * 1080 * 3);
    assert_eq!(images[1].as_raw().len(), 1280 * 1024 * 3);
    let primary = c.capture_primary().expect("primary capture succeeds");
    assert_eq!(primary.width(), 1280);
    assert_eq!(primary.height(), 1024);
}

#[test]
fn simulated_backend_rejects_inconsistent_scripts() {
    let (displays, frames) = small_setup();
    // One flag short.
    assert!(SimBackend::new(displays.clone(), frames, vec![false; 2], false, 0).is_none());
    // A frame of the wrong size for its display.
    let bad_frames = vec![
        patterned_frame(2, 2, 0),
        patterned_frame(3, 2, 0),
        patterned_frame(1, 4, 0),
    ];
    assert!(SimBackend::new(displays.clone(), bad_frames, vec![false; 3], false, 0).is_none());
    // A primary index beyond the list.
    let frames2 = vec![
        patterned_frame(2, 2, 0),
        patterned_frame(3, 1, 0),
        patterned_frame(1, 4, 0),
    ];
    assert!(SimBackend::new(displays, frames2, vec![false; 3], false, 3).is_none());
}

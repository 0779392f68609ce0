//! Tests of the monitor-report mapping: reported rectangles to displays,
//! and the primary-display selection.

use captis::x11::displays_of;
use captis::x11::primary_of;
use captis::Display;

#[test]
fn reported_rectangles_map_in_order_with_top_left_swap() {
    let rects = vec![(0, 0, 1920, 1080, true), (1920, 0, 1280, 1024, false)];
    let displays = displays_of(&rects);
    assert_eq!(
        displays,
        vec![Display::new(0, 0, 1920, 1080), Display::new(0, 1920, 1280, 1024)]
    );
    // The rectangle's first entry is the horizontal position: it becomes
    // `left`, while the second becomes `top`.
    let shifted = displays_of(&vec![(100, -50, 640, 480, false)]);
    assert_eq!(shifted, vec![Display::new(-50, 100, 640, 480)]);
}

#[test]
fn zero_extent_monitors_are_dropped_not_surfaced() {
    let rects = vec![
        (0, 0, 0, 1080, false),
        (0, 0, 800, 600, false),
        (800, 0, 1024, 0, true),
        (800, 600, 640, 480, false),
    ];
    let displays = displays_of(&rects);
    assert_eq!(
        displays,
        vec![Display::new(0, 0, 800, 600), Display::new(600, 800, 640, 480)]
    );
    assert_eq!(displays_of(&Vec::new()), Vec::new());
}

#[test]
fn primary_selection_prefers_the_flagged_monitor() {
    let rects = vec![(0, 0, 800, 600, false), (800, 0, 1024, 768, true)];
    assert_eq!(primary_of(&rects), Some(Display::new(0, 800, 1024, 768)));
}

#[test]
fn primary_selection_falls_back_to_the_first_with_extent() {
    let rects = vec![(0, 0, 0, 0, false), (0, 0, 800, 600, false), (800, 0, 1024, 768, false)];
    assert_eq!(primary_of(&rects), Some(Display::new(0, 0, 800, 600)));
    // A flagged monitor of zero extent is never chosen.
    let degenerate_primary = vec![(0, 0, 0, 0, true), (0, 0, 800, 600, false)];
    assert_eq!(primary_of(&degenerate_primary), Some(Display::new(0, 0, 800, 600)));
}

#[test]
fn primary_selection_finds_none_without_extent() {
    assert_eq!(primary_of(&Vec::new()), None);
    assert_eq!(primary_of(&vec![(0, 0, 0, 5, true), (0, 0, 5, 0, false)]), None);
}

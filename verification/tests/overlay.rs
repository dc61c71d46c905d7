use wlgif::overlay::{frame_rects, interruption, overlay_layout, overlay_outcome, Rect};
use wlgif::region::Region;

#[test]
fn layout_for_region() {
    let l = overlay_layout(Region { x: 100, y: 200, width: 800, height: 600 });
    assert_eq!((l.width, l.height, l.margin_top, l.margin_left), (808, 648, 156, 96));
    let l = overlay_layout(Region { x: 0, y: 0, width: 1, height: 1 });
    assert_eq!((l.margin_top, l.margin_left), (-44, -4));
}

#[test]
fn frame_encloses_region() {
    let r = frame_rects(Region { x: 5, y: 5, width: 10, height: 20 });
    assert_eq!(
        r,
        vec![
            Rect { x: 0, y: 40, width: 18, height: 4 },
            Rect { x: 0, y: 64, width: 18, height: 4 },
            Rect { x: 0, y: 40, width: 4, height: 28 },
            Rect { x: 14, y: 40, width: 4, height: 28 },
        ]
    );
}

#[test]
fn interruptions() {
    assert!(interruption("wf-recorder was interrupted"));
    assert!(interruption("killed by signal"));
    assert!(!interruption("recording failed: conversion"));
    assert!(!interruption(""));
}

#[test]
fn frame_paints_exactly_the_border() {
    let region = Region { x: 0, y: 0, width: 5, height: 3 };
    let rects = frame_rects(region);
    for px in 0..(5 + 8) {
        for py in 40..(40 + 3 + 8) {
            let covered = rects
                .iter()
                .any(|r| r.x <= px && px < r.x + r.width && r.y <= py && py < r.y + r.height);
            let inside = (4..9).contains(&px) && (44..47).contains(&py);
            assert_eq!(covered, !inside, "pixel {},{}", px, py);
        }
    }
}

#[test]
fn overlay_outcomes() {
    assert!(overlay_outcome(None));
    assert!(overlay_outcome(Some("recording interrupted")));
    assert!(!overlay_outcome(Some("conversion failed")));
}

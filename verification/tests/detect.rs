//! Tests of the closest-point collision detector.

use breakout::App;
use breakout::Edge;
use breakout::Part;

#[test]
fn detect_far_apart_is_none() {
    // Ball center (125, 125), rectangle ends at (10, 10): no contact.
    let hit = App::detect_collision(0, 0, 10, 10, 100, 100, 25);
    assert!(hit.is_none());
}

#[test]
fn detect_touching_at_exact_radius_is_none() {
    // Ball center (126, 126); the rectangle starts at y = 151, so the
    // closest-point distance is exactly the radius: no collision yet.
    let hit = App::detect_collision(0, 151, 1024, 100, 101, 101, 25);
    assert!(hit.is_none());
}

#[test]
fn detect_horizontal_face() {
    // Ball center (126, 126), rectangle spans y in [149, 249]: the center is
    // 23 below the top face, straight above it.
    let hit = App::detect_collision(0, 149, 1024, 100, 101, 101, 25);
    assert_eq!(hit, Some(Edge::HorizontalEdge));
}

#[test]
fn detect_vertical_face() {
    // Ball center (126, 124), rectangle spans x in [149, 249]: the center is
    // 23 left of the left face, straight beside it.
    let hit = App::detect_collision(149, 0, 100, 1024, 101, 99, 25);
    assert_eq!(hit, Some(Edge::VerticalEdge));
}

#[test]
fn detect_corner_reports_both() {
    // Ball center (126, 126), rectangle corner at (111, 111): 15 away on each
    // axis, within both face thresholds.
    let hit = App::detect_collision(11, 11, 100, 100, 101, 101, 25);
    assert_eq!(hit, Some(Edge::Both));
}

#[test]
fn detect_center_on_center_reports_both() {
    // The ball's center sits exactly at the rectangle's center: the
    // degenerate deep-overlap case reports Both.
    let hit = App::detect_collision(86, 111, 80, 30, 101, 101, 25);
    assert_eq!(hit, Some(Edge::Both));
}

#[test]
fn edge_and_part_are_plain_values() {
    let e = Edge::HorizontalEdge;
    assert_eq!(e, Edge::HorizontalEdge);
    assert_ne!(e, Edge::Both);
    let p = Part::Left;
    assert!(matches!(p, Part::Left));
    assert!(matches!(Part::Bottom, Part::Bottom));
}

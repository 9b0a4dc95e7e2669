use impulse_client_kit::position::{
    calculate_position, clamp_to_viewport, fitting_side, opposite, OverlayAlign, OverlaySide,
    HALF_UNITS_PER_PX, UNITS_PER_PX, VIEWPORT_PADDING,
};

/// Whole pixels in layout units.
fn px(v: i32) -> i32 {
    v * UNITS_PER_PX as i32
}

/// Whole pixels in half layout units, as positions come back.
fn at(v: i64) -> i64 {
    v * HALF_UNITS_PER_PX
}

/// A length in layout units as a position in half units.
fn half(len: i64) -> i64 {
    2 * len
}

#[test]
fn clamps_left_edge() {
    let (top, left) = calculate_position(
        px(100),
        px(-50),
        px(30),
        px(20),
        px(200),
        px(100),
        OverlaySide::Bottom,
        OverlayAlign::Start,
        4,
        px(1024),
        px(768),
    );
    assert_eq!(left, half(VIEWPORT_PADDING));
    assert_eq!(top, at(124));
}

#[test]
fn clamps_right_edge() {
    let (_, left) = calculate_position(
        px(100),
        px(1000),
        px(30),
        px(20),
        px(200),
        px(100),
        OverlaySide::Bottom,
        OverlayAlign::Start,
        4,
        px(1024),
        px(768),
    );
    assert_eq!(left, at(1024) - at(200) - half(VIEWPORT_PADDING));
}

/// A trigger near the bottom edge: the content goes above it rather than
/// being clamped down onto it.
#[test]
fn flips_to_the_side_that_fits() {
    let (top, _) = calculate_position(
        px(700),
        px(100),
        px(30),
        px(20),
        px(100),
        px(300),
        OverlaySide::Bottom,
        OverlayAlign::Start,
        4,
        px(1024),
        px(768),
    );
    assert_eq!(top, at(700) - at(300) - at(4));
}

/// Neither side has room: the one with more of it wins.
#[test]
fn keeps_the_roomier_side_when_neither_fits() {
    // 200 above the trigger, ~468 below it, content 600 tall: below stays.
    let (top, _) = calculate_position(
        px(200),
        px(100),
        px(30),
        px(100),
        px(100),
        px(600),
        OverlaySide::Top,
        OverlayAlign::Start,
        4,
        px(1024),
        px(768),
    );
    assert_eq!(top, at(768) - at(600) - half(VIEWPORT_PADDING));
}

/// A side that fits is never abandoned, even when the other side has more
/// room.
#[test]
fn keeps_the_requested_side_when_it_fits() {
    let (top, _) = calculate_position(
        px(400),
        px(100),
        px(30),
        px(20),
        px(100),
        px(100),
        OverlaySide::Top,
        OverlayAlign::Start,
        4,
        px(1024),
        px(768),
    );
    assert_eq!(top, at(400) - at(100) - at(4));
}

#[test]
fn oversized_content_pins_to_padded_edge() {
    let (top, left) =
        clamp_to_viewport(at(-500), at(-500), px(2000), px(2000), px(1024), px(768));
    assert_eq!(top, half(VIEWPORT_PADDING));
    assert_eq!(left, half(VIEWPORT_PADDING));
}

#[test]
fn keeps_position_when_within_viewport() {
    let (top, left) = calculate_position(
        px(100),
        px(100),
        px(30),
        px(20),
        px(50),
        px(40),
        OverlaySide::Bottom,
        OverlayAlign::Start,
        4,
        px(1024),
        px(768),
    );
    assert_eq!(top, at(124));
    assert_eq!(left, at(100));
}

#[test]
fn padding_is_eight_pixels() {
    assert_eq!(VIEWPORT_PADDING, px(8) as i64);
}

#[test]
fn centres_content_along_the_trigger() {
    // 30 px trigger, 50 px card: 10 px to the left of the trigger's left edge.
    let (top, left) = calculate_position(
        px(100),
        px(100),
        px(30),
        px(20),
        px(50),
        px(40),
        OverlaySide::Bottom,
        OverlayAlign::Center,
        4,
        px(1024),
        px(768),
    );
    assert_eq!(top, at(124));
    assert_eq!(left, at(90));
}

#[test]
fn centres_an_odd_difference_exactly() {
    // 31 px trigger, 50 px card: 9.5 px to the left.
    let (_, left) = calculate_position(
        px(100),
        px(100),
        px(31),
        px(20),
        px(50),
        px(40),
        OverlaySide::Bottom,
        OverlayAlign::Center,
        4,
        px(1024),
        px(768),
    );
    assert_eq!(left, at(100) - at(19) / 2);
    // A trigger one layout unit wider than the card: half a unit to the right.
    let (_, left) = calculate_position(
        px(100),
        px(100),
        px(30) + 1,
        px(20),
        px(30),
        px(40),
        OverlaySide::Bottom,
        OverlayAlign::Center,
        4,
        px(1024),
        px(768),
    );
    assert_eq!(left, at(100) + 1);
    // A card one layout unit wider than the trigger: half a unit to the left.
    let (_, left) = calculate_position(
        px(100),
        px(100),
        px(30),
        px(20),
        px(30) + 1,
        px(40),
        OverlaySide::Bottom,
        OverlayAlign::Center,
        4,
        px(1024),
        px(768),
    );
    assert_eq!(left, at(100) - 1);
    // Beside the trigger, centred vertically: 20 px trigger, 35 px card.
    let (top, _) = calculate_position(
        px(300),
        px(100),
        px(30),
        px(20),
        px(50),
        px(35),
        OverlaySide::Right,
        OverlayAlign::Center,
        4,
        px(1024),
        px(768),
    );
    assert_eq!(top, at(300) - at(15) / 2);
}

#[test]
fn end_alignment_lines_up_far_edges() {
    let (_, left) = calculate_position(
        px(100),
        px(300),
        px(30),
        px(20),
        px(50),
        px(40),
        OverlaySide::Top,
        OverlayAlign::End,
        4,
        px(1024),
        px(768),
    );
    assert_eq!(left, at(280));
}

#[test]
fn places_beside_the_trigger() {
    // Right of the trigger, centred vertically.
    let (top, left) = calculate_position(
        px(300),
        px(100),
        px(30),
        px(20),
        px(50),
        px(40),
        OverlaySide::Right,
        OverlayAlign::Center,
        4,
        px(1024),
        px(768),
    );
    assert_eq!(left, at(134));
    assert_eq!(top, at(290));
    // Left of a trigger at the left edge: no room there, so it flips right.
    let (_, left) = calculate_position(
        px(300),
        px(20),
        px(30),
        px(20),
        px(50),
        px(40),
        OverlaySide::Left,
        OverlayAlign::Start,
        4,
        px(1024),
        px(768),
    );
    assert_eq!(left, at(54));
    // Left with room: against the trigger's left edge, 4 px away.
    let (_, left) = calculate_position(
        px(300),
        px(500),
        px(30),
        px(20),
        px(50),
        px(40),
        OverlaySide::Left,
        OverlayAlign::Start,
        4,
        px(1024),
        px(768),
    );
    assert_eq!(left, at(446));
}

#[test]
fn fitting_side_cases() {
    let off = px(4) as i64;
    // Fits where asked.
    assert_eq!(
        fitting_side(OverlaySide::Top, px(400), px(100), px(30), px(20), px(100), px(100), off, px(1024), px(768)),
        OverlaySide::Top
    );
    // Does not fit below, fits above.
    assert_eq!(
        fitting_side(OverlaySide::Bottom, px(700), px(100), px(30), px(20), px(100), px(300), off, px(1024), px(768)),
        OverlaySide::Top
    );
    // Fits nowhere: more room below than above, so below.
    assert_eq!(
        fitting_side(OverlaySide::Top, px(200), px(100), px(30), px(100), px(100), px(600), off, px(1024), px(768)),
        OverlaySide::Bottom
    );
    // Fits nowhere, more room above where asked: stays.
    assert_eq!(
        fitting_side(OverlaySide::Top, px(500), px(100), px(30), px(100), px(100), px(600), off, px(1024), px(768)),
        OverlaySide::Top
    );
    // Equal room on both sides and fits on neither: the opposite side.
    assert_eq!(
        fitting_side(OverlaySide::Left, px(100), px(100), px(100), px(20), px(400), px(20), 0, px(300), px(768)),
        OverlaySide::Right
    );
}

#[test]
fn opposite_sides() {
    assert_eq!(opposite(OverlaySide::Top), OverlaySide::Bottom);
    assert_eq!(opposite(OverlaySide::Bottom), OverlaySide::Top);
    assert_eq!(opposite(OverlaySide::Left), OverlaySide::Right);
    assert_eq!(opposite(OverlaySide::Right), OverlaySide::Left);
}

#[test]
fn clamp_stays_within_padded_viewport() {
    let (top, left) = clamp_to_viewport(at(900), at(2000), px(100), px(50), px(1024), px(768));
    assert_eq!(top, at(768 - 50 - 8));
    assert_eq!(left, at(1024 - 100 - 8));
    let (top, left) = clamp_to_viewport(at(300), at(400), px(100), px(50), px(1024), px(768));
    assert_eq!((top, left), (at(300), at(400)));
}

#[test]
fn fitting_placement_leaves_the_trigger_uncovered() {
    // Requested side fits: the card stays below the trigger and the offset.
    let (top, _) = calculate_position(
        px(0),
        px(100),
        px(30),
        px(20),
        px(50),
        px(40),
        OverlaySide::Bottom,
        OverlayAlign::Start,
        4,
        px(1024),
        px(768),
    );
    assert!(top >= at(24));
}

#[test]
fn fitting_side_takes_any_offset() {
    // An offset far past the viewport leaves room nowhere; the trigger sits
    // lower than the middle, so above stays the roomier side.
    assert_eq!(
        fitting_side(OverlaySide::Top, px(400), px(100), px(30), px(20), px(100), px(100), i64::MAX, px(1024), px(768)),
        OverlaySide::Top
    );
    assert_eq!(
        fitting_side(OverlaySide::Bottom, px(400), px(100), px(30), px(20), px(100), px(100), i64::MAX, px(1024), px(768)),
        OverlaySide::Top
    );
    assert_eq!(
        fitting_side(OverlaySide::Top, px(400), px(100), px(30), px(20), px(100), px(100), i64::MIN, px(1024), px(768)),
        OverlaySide::Top
    );
}

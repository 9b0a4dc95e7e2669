//! Where an overlay goes, given the box of its trigger and the viewport.
//!
//! Every length given is a fixed-point count of layout units, `UNITS_PER_PX`
//! to the CSS pixel (the same grid browsers lay pages out on); `side_offset`
//! alone is in whole pixels. A position handed back is in half layout units,
//! `HALF_UNITS_PER_PX` to the pixel: centring content on its trigger halves a
//! difference of lengths, and on that grid the half is exact. Placement picks
//! the side that fits (`fitting_side`), puts the overlay against that side of
//! the trigger, aligns it along the trigger, and finally clamps it into the
//! viewport (`clamp_to_viewport`).
use vstd::prelude::*;

verus! {

/// Layout units in one CSS pixel.
pub const UNITS_PER_PX: i64 = 64;

/// Half layout units in one CSS pixel: the grid of positions handed back.
pub const HALF_UNITS_PER_PX: i64 = 128;

/// Minimum gap kept between an overlay and the edge of the viewport: 8 px, in
/// layout units.
pub const VIEWPORT_PADDING: i64 = 512;

/// Overlay side to show at.
#[derive(Clone, Copy, PartialEq, Eq, Debug, Structural)]
pub enum OverlaySide {
    Top,
    Right,
    Bottom,
    Left,
}

/// Overlay align to show with.
#[derive(Clone, Copy, PartialEq, Eq, Debug, Structural)]
pub enum OverlayAlign {
    Start,
    Center,
    End,
}

// ---------------------------------------------------------------------------
// The model
// ---------------------------------------------------------------------------

/// The side across the trigger from `side`.
pub open spec fn opposite_side(side: OverlaySide) -> OverlaySide {
    match side {
        OverlaySide::Top => OverlaySide::Bottom,
        OverlaySide::Bottom => OverlaySide::Top,
        OverlaySide::Left => OverlaySide::Right,
        OverlaySide::Right => OverlaySide::Left,
    }
}

/// Whether `side` stacks the overlay vertically (above or below the trigger).
pub open spec fn is_vertical(side: OverlaySide) -> bool {
    side == OverlaySide::Top || side == OverlaySide::Bottom
}

/// Free space on `side` of the trigger, between the trigger (plus the offset)
/// and the padded edge of the viewport.
pub open spec fn side_room(
    side: OverlaySide,
    trigger_top: int,
    trigger_left: int,
    trigger_width: int,
    trigger_height: int,
    offset: int,
    viewport_width: int,
    viewport_height: int,
) -> int {
    match side {
        OverlaySide::Top => trigger_top - offset - VIEWPORT_PADDING,
        OverlaySide::Bottom => viewport_height - VIEWPORT_PADDING - (trigger_top + trigger_height + offset),
        OverlaySide::Left => trigger_left - offset - VIEWPORT_PADDING,
        OverlaySide::Right => viewport_width - VIEWPORT_PADDING - (trigger_left + trigger_width + offset),
    }
}

/// The extent of the content across `side`: its height above or below the
/// trigger, its width beside it.
pub open spec fn needed_room(side: OverlaySide, content_width: int, content_height: int) -> int {
    if is_vertical(side) {
        content_height
    } else {
        content_width
    }
}

/// The side the overlay actually gets: the requested one when the content fits
/// there; otherwise the opposite one, unless the requested side has strictly
/// more room.
pub open spec fn chosen_side(
    side: OverlaySide,
    trigger_top: int,
    trigger_left: int,
    trigger_width: int,
    trigger_height: int,
    content_width: int,
    content_height: int,
    offset: int,
    viewport_width: int,
    viewport_height: int,
) -> OverlaySide {
    let here = side_room(side, trigger_top, trigger_left, trigger_width, trigger_height, offset,
        viewport_width, viewport_height);
    let there = side_room(opposite_side(side), trigger_top, trigger_left, trigger_width,
        trigger_height, offset, viewport_width, viewport_height);
    if here >= needed_room(side, content_width, content_height) || there < here {
        side
    } else {
        opposite_side(side)
    }
}

/// How far the content is shifted along the trigger by `align`, in half units:
/// none from the start, half the difference of the extents to centre it, the
/// whole difference to line up the ends.
pub open spec fn align_shift(align: OverlayAlign, trigger_extent: int, content_extent: int) -> int {
    match align {
        OverlayAlign::Start => 0,
        OverlayAlign::Center => trigger_extent - content_extent,
        OverlayAlign::End => 2 * (trigger_extent - content_extent),
    }
}

/// Top/left, in half units, of the overlay put against `side` of the trigger
/// and aligned along it, before any clamping.
pub open spec fn anchored_position(
    side: OverlaySide,
    align: OverlayAlign,
    trigger_top: int,
    trigger_left: int,
    trigger_width: int,
    trigger_height: int,
    content_width: int,
    content_height: int,
    offset: int,
) -> (int, int) {
    match side {
        OverlaySide::Top => (
            2 * (trigger_top - content_height - offset),
            2 * trigger_left + align_shift(align, trigger_width, content_width),
        ),
        OverlaySide::Bottom => (
            2 * (trigger_top + trigger_height + offset),
            2 * trigger_left + align_shift(align, trigger_width, content_width),
        ),
        OverlaySide::Left => (
            2 * trigger_top + align_shift(align, trigger_height, content_height),
            2 * (trigger_left - content_width - offset),
        ),
        OverlaySide::Right => (
            2 * trigger_top + align_shift(align, trigger_height, content_height),
            2 * (trigger_left + trigger_width + offset),
        ),
    }
}

/// `value` brought into `[low, high]`.
pub open spec fn clamp_axis(value: int, low: int, high: int) -> int {
    if value < low {
        low
    } else if value > high {
        high
    } else {
        value
    }
}

/// The padding, in half units.
pub open spec fn padding_half_units() -> int {
    2 * VIEWPORT_PADDING
}

/// The largest top (or left), in half units, at which content of
/// `content_extent` still ends a padding short of the viewport's far edge;
/// never less than the padding.
pub open spec fn axis_limit(viewport_extent: int, content_extent: int) -> int {
    let far = 2 * (viewport_extent - content_extent - VIEWPORT_PADDING);
    if far >= padding_half_units() {
        far
    } else {
        padding_half_units()
    }
}

/// Top/left, in half units, clamped into the padded viewport.
pub open spec fn clamped_position(
    top: int,
    left: int,
    content_width: int,
    content_height: int,
    viewport_width: int,
    viewport_height: int,
) -> (int, int) {
    (
        clamp_axis(top, padding_half_units(), axis_limit(viewport_height, content_height)),
        clamp_axis(left, padding_half_units(), axis_limit(viewport_width, content_width)),
    )
}

/// The offset between trigger and overlay, in layout units.
pub open spec fn offset_units(side_offset: int) -> int {
    side_offset * UNITS_PER_PX
}

/// Where the overlay finally goes, in half units.
pub open spec fn overlay_position(
    trigger_top: int,
    trigger_left: int,
    trigger_width: int,
    trigger_height: int,
    content_width: int,
    content_height: int,
    side: OverlaySide,
    align: OverlayAlign,
    side_offset: int,
    viewport_width: int,
    viewport_height: int,
) -> (int, int) {
    let offset = offset_units(side_offset);
    let actual = chosen_side(side, trigger_top, trigger_left, trigger_width, trigger_height,
        content_width, content_height, offset, viewport_width, viewport_height);
    let anchored = anchored_position(actual, align, trigger_top, trigger_left, trigger_width,
        trigger_height, content_width, content_height, offset);
    clamped_position(anchored.0, anchored.1, content_width, content_height, viewport_width,
        viewport_height)
}

// ---------------------------------------------------------------------------
// The code
// ---------------------------------------------------------------------------

/// The side across the trigger from `side`.
pub fn opposite(side: OverlaySide) -> (o: OverlaySide)
    ensures
        o == opposite_side(side),
{
    match side {
        OverlaySide::Top => OverlaySide::Bottom,
        OverlaySide::Bottom => OverlaySide::Top,
        OverlaySide::Left => OverlaySide::Right,
        OverlaySide::Right => OverlaySide::Left,
    }
}

/// Free space on `side` of the trigger (see `side_room`).
fn room(
    side: OverlaySide,
    trigger_top: i32,
    trigger_left: i32,
    trigger_width: i32,
    trigger_height: i32,
    offset: i64,
    viewport_width: i32,
    viewport_height: i32,
) -> (r: i128)
    ensures
        r == side_room(side, trigger_top as int, trigger_left as int, trigger_width as int,
            trigger_height as int, offset as int, viewport_width as int, viewport_height as int),
{
    match side {
        OverlaySide::Top => trigger_top as i128 - offset as i128 - VIEWPORT_PADDING as i128,
        OverlaySide::Bottom => viewport_height as i128 - VIEWPORT_PADDING as i128 - (
        trigger_top as i128 + trigger_height as i128 + offset as i128),
        OverlaySide::Left => trigger_left as i128 - offset as i128 - VIEWPORT_PADDING as i128,
        OverlaySide::Right => viewport_width as i128 - VIEWPORT_PADDING as i128 - (
        trigger_left as i128 + trigger_width as i128 + offset as i128),
    }
}

/// The side an overlay actually gets, given the room around the trigger.
///
/// The requested side when the content fits there; the opposite side when it
/// fits and the requested one doesn't; otherwise whichever of the two has more
/// room, so that the clamp has the least to take back. `offset` is in layout
/// units.
///
/// Flipping keeps an overlay off its own trigger: clamped into the viewport
/// instead, an overlay near an edge would cover the trigger, and for anything
/// driven by hover that is a loop of closing and reopening.
pub fn fitting_side(
    side: OverlaySide,
    trigger_top: i32,
    trigger_left: i32,
    trigger_width: i32,
    trigger_height: i32,
    content_width: i32,
    content_height: i32,
    offset: i64,
    viewport_width: i32,
    viewport_height: i32,
) -> (chosen: OverlaySide)
    ensures
        chosen == chosen_side(side, trigger_top as int, trigger_left as int, trigger_width as int,
            trigger_height as int, content_width as int, content_height as int, offset as int,
            viewport_width as int, viewport_height as int),
{
    let other = opposite(side);
    let here = room(side, trigger_top, trigger_left, trigger_width, trigger_height, offset,
        viewport_width, viewport_height);
    let there = room(other, trigger_top, trigger_left, trigger_width, trigger_height, offset,
        viewport_width, viewport_height);
    let needed: i128 = match side {
        OverlaySide::Top | OverlaySide::Bottom => content_height as i128,
        OverlaySide::Left | OverlaySide::Right => content_width as i128,
    };
    if here >= needed || there < here {
        side
    } else {
        other
    }
}

/// How far `align` shifts the content along the trigger, in half units (see
/// `align_shift`).
fn shift(align: OverlayAlign, trigger_extent: i32, content_extent: i32) -> (s: i64)
    ensures
        s == align_shift(align, trigger_extent as int, content_extent as int),
{
    match align {
        OverlayAlign::Start => 0,
        OverlayAlign::Center => trigger_extent as i64 - content_extent as i64,
        OverlayAlign::End => 2 * (trigger_extent as i64 - content_extent as i64),
    }
}

/// Calculates overlay position based on given positions, side and align, then
/// clamps the result so the overlay stays fully within the viewport.
///
/// The requested side is a preference, not a promise: an overlay that would
/// not fit there is flipped to the opposite side (see `fitting_side`) rather
/// than squeezed back over its own trigger. Only the position flips: a caller
/// that keys an entrance animation or an arrow off the side it asked for still
/// draws the side it asked for.
///
/// Lengths are in layout units and `side_offset` is in pixels; the position
/// comes back in half layout units, so a centred overlay sits exactly in the
/// middle.
pub fn calculate_position(
    trigger_top: i32,
    trigger_left: i32,
    trigger_width: i32,
    trigger_height: i32,
    content_width: i32,
    content_height: i32,
    side: OverlaySide,
    align: OverlayAlign,
    side_offset: i32,
    viewport_width: i32,
    viewport_height: i32,
) -> (pos: (i64, i64))
    ensures
        pos.0 == overlay_position(trigger_top as int, trigger_left as int, trigger_width as int,
            trigger_height as int, content_width as int, content_height as int, side, align,
            side_offset as int, viewport_width as int, viewport_height as int).0,
        pos.1 == overlay_position(trigger_top as int, trigger_left as int, trigger_width as int,
            trigger_height as int, content_width as int, content_height as int, side, align,
            side_offset as int, viewport_width as int, viewport_height as int).1,
{
    let offset: i64 = side_offset as i64 * UNITS_PER_PX;
    let side = fitting_side(side, trigger_top, trigger_left, trigger_width, trigger_height,
        content_width, content_height, offset, viewport_width, viewport_height);

    let (top, left): (i64, i64) = match side {
        OverlaySide::Top => (
            2 * (trigger_top as i64 - content_height as i64 - offset),
            2 * trigger_left as i64 + shift(align, trigger_width, content_width),
        ),
        OverlaySide::Bottom => (
            2 * (trigger_top as i64 + trigger_height as i64 + offset),
            2 * trigger_left as i64 + shift(align, trigger_width, content_width),
        ),
        OverlaySide::Left => (
            2 * trigger_top as i64 + shift(align, trigger_height, content_height),
            2 * (trigger_left as i64 - content_width as i64 - offset),
        ),
        OverlaySide::Right => (
            2 * trigger_top as i64 + shift(align, trigger_height, content_height),
            2 * (trigger_left as i64 + trigger_width as i64 + offset),
        ),
    };

    clamp_to_viewport(top, left, content_width, content_height, viewport_width, viewport_height)
}

/// `value` brought into `[low, high]`, for `low <= high`.
fn clamp_i64(value: i64, low: i64, high: i64) -> (c: i64)
    requires
        low <= high,
    ensures
        c == clamp_axis(value as int, low as int, high as int),
{
    if value < low {
        low
    } else if value > high {
        high
    } else {
        value
    }
}

/// The largest top (or left), in half units, that keeps the content a padding
/// short of the far edge, never less than the padding (see `axis_limit`).
fn limit(viewport_extent: i32, content_extent: i32) -> (m: i64)
    ensures
        m == axis_limit(viewport_extent as int, content_extent as int),
{
    let far = 2 * (viewport_extent as i64 - content_extent as i64 - VIEWPORT_PADDING);
    if far >= 2 * VIEWPORT_PADDING {
        far
    } else {
        2 * VIEWPORT_PADDING
    }
}

/// Clamps a `top`/`left` position so a `content_width` x `content_height` box
/// stays fully inside the viewport, leaving a small edge padding.
///
/// The position is in half layout units, the sizes in layout units.
///
/// If the content itself is larger than the viewport (minus padding), it is
/// pinned to the padded edge rather than centered off-screen.
pub fn clamp_to_viewport(
    top: i64,
    left: i64,
    content_width: i32,
    content_height: i32,
    viewport_width: i32,
    viewport_height: i32,
) -> (pos: (i64, i64))
    ensures
        pos.0 == clamped_position(top as int, left as int, content_width as int,
            content_height as int, viewport_width as int, viewport_height as int).0,
        pos.1 == clamped_position(top as int, left as int, content_width as int,
            content_height as int, viewport_width as int, viewport_height as int).1,
{
    let max_left = limit(viewport_width, content_width);
    let max_top = limit(viewport_height, content_height);
    (
        clamp_i64(top, 2 * VIEWPORT_PADDING, max_top),
        clamp_i64(left, 2 * VIEWPORT_PADDING, max_left),
    )
}

} // verus!

//! What placement promises, proved over the model that `calculate_position`,
//! `fitting_side` and `clamp_to_viewport` are held to.
use vstd::prelude::*;
use crate::position::{
    OverlayAlign, OverlaySide, VIEWPORT_PADDING, anchored_position, padding_half_units, axis_limit, chosen_side,
    clamped_position, needed_room, offset_units, opposite_side, overlay_position, side_room,
};

verus! {

/// Flipping twice gives back the side one started from.
pub proof fn lemma_opposite_is_an_involution(side: OverlaySide)
    ensures
        opposite_side(opposite_side(side)) == side,
        opposite_side(side) != side,
{
}

/// The overlay only ever goes on the requested side or the one across from it.
pub proof fn lemma_chosen_side_is_requested_or_opposite(
    side: OverlaySide,
    trigger_top: int,
    trigger_left: int,
    trigger_width: int,
    trigger_height: int,
    content_width: int,
    content_height: int,
    offset: int,
    viewport_width: int,
    viewport_height: int,
)
    ensures
        ({
            let chosen = chosen_side(side, trigger_top, trigger_left, trigger_width,
                trigger_height, content_width, content_height, offset, viewport_width,
                viewport_height);
            chosen == side || chosen == opposite_side(side)
        }),
{
}

/// A side that fits is never abandoned, even when the other side has more
/// room: the caller asked for this one.
pub proof fn lemma_requested_side_kept_when_it_fits(
    side: OverlaySide,
    trigger_top: int,
    trigger_left: int,
    trigger_width: int,
    trigger_height: int,
    content_width: int,
    content_height: int,
    offset: int,
    viewport_width: int,
    viewport_height: int,
)
    requires
        side_room(side, trigger_top, trigger_left, trigger_width, trigger_height, offset,
            viewport_width, viewport_height) >= needed_room(side, content_width, content_height),
    ensures
        chosen_side(side, trigger_top, trigger_left, trigger_width, trigger_height,
            content_width, content_height, offset, viewport_width, viewport_height) == side,
{
}

/// Content that does not fit on the requested side but fits on the opposite
/// one goes to the opposite one.
pub proof fn lemma_flips_to_the_side_that_fits(
    side: OverlaySide,
    trigger_top: int,
    trigger_left: int,
    trigger_width: int,
    trigger_height: int,
    content_width: int,
    content_height: int,
    offset: int,
    viewport_width: int,
    viewport_height: int,
)
    requires
        side_room(side, trigger_top, trigger_left, trigger_width, trigger_height, offset,
            viewport_width, viewport_height) < needed_room(side, content_width, content_height),
        side_room(opposite_side(side), trigger_top, trigger_left, trigger_width, trigger_height,
            offset, viewport_width, viewport_height) >= needed_room(opposite_side(side),
            content_width, content_height),
    ensures
        chosen_side(side, trigger_top, trigger_left, trigger_width, trigger_height,
            content_width, content_height, offset, viewport_width, viewport_height)
            == opposite_side(side),
{
}

/// When the requested side has no room for the content, the overlay goes to
/// whichever of the two sides has more room (the opposite one on a tie), so
/// the clamp has the least to take back.
pub proof fn lemma_roomier_side_when_requested_does_not_fit(
    side: OverlaySide,
    trigger_top: int,
    trigger_left: int,
    trigger_width: int,
    trigger_height: int,
    content_width: int,
    content_height: int,
    offset: int,
    viewport_width: int,
    viewport_height: int,
)
    requires
        side_room(side, trigger_top, trigger_left, trigger_width, trigger_height, offset,
            viewport_width, viewport_height) < needed_room(side, content_width, content_height),
    ensures
        ({
            let chosen = chosen_side(side, trigger_top, trigger_left, trigger_width,
                trigger_height, content_width, content_height, offset, viewport_width,
                viewport_height);
            side_room(chosen, trigger_top, trigger_left, trigger_width, trigger_height, offset,
                viewport_width, viewport_height) >= side_room(opposite_side(chosen), trigger_top,
                trigger_left, trigger_width, trigger_height, offset, viewport_width,
                viewport_height)
        }),
{
}

/// A clamped position (in half units) lies in the padded viewport: never nearer than the
/// padding to the top or left edge, and, for content that fits between the
/// paddings, never nearer than the padding to the bottom or right edge.
pub proof fn lemma_clamped_stays_within_viewport(
    top: int,
    left: int,
    content_width: int,
    content_height: int,
    viewport_width: int,
    viewport_height: int,
)
    ensures
        ({
            let pos = clamped_position(top, left, content_width, content_height, viewport_width,
                viewport_height);
            &&& padding_half_units() <= pos.0 <= axis_limit(viewport_height, content_height)
            &&& padding_half_units() <= pos.1 <= axis_limit(viewport_width, content_width)
            &&& content_height <= viewport_height - 2 * VIEWPORT_PADDING ==> pos.0 + 2
                * content_height <= 2 * (viewport_height - VIEWPORT_PADDING)
            &&& content_width <= viewport_width - 2 * VIEWPORT_PADDING ==> pos.1 + 2
                * content_width <= 2 * (viewport_width - VIEWPORT_PADDING)
        }),
{
}

/// Content larger than the viewport minus its paddings is pinned to the padded
/// top/left edge rather than pushed off-screen.
pub proof fn lemma_oversized_content_pins_to_padded_edge(
    top: int,
    left: int,
    content_width: int,
    content_height: int,
    viewport_width: int,
    viewport_height: int,
)
    ensures
        ({
            let pos = clamped_position(top, left, content_width, content_height, viewport_width,
                viewport_height);
            &&& content_height > viewport_height - 2 * VIEWPORT_PADDING ==> pos.0
                == padding_half_units()
            &&& content_width > viewport_width - 2 * VIEWPORT_PADDING ==> pos.1
                == padding_half_units()
        }),
{
}

/// A position whose box already lies in the padded viewport is left where it
/// is.
pub proof fn lemma_clamp_keeps_position_within_viewport(
    top: int,
    left: int,
    content_width: int,
    content_height: int,
    viewport_width: int,
    viewport_height: int,
)
    requires
        padding_half_units() <= top,
        top + 2 * content_height <= 2 * (viewport_height - VIEWPORT_PADDING),
        padding_half_units() <= left,
        left + 2 * content_width <= 2 * (viewport_width - VIEWPORT_PADDING),
    ensures
        clamped_position(top, left, content_width, content_height, viewport_width,
            viewport_height) == (top, left),
{
}

/// The overlay that `calculate_position` places lies in the padded viewport
/// (see `lemma_clamped_stays_within_viewport`).
pub proof fn lemma_overlay_stays_within_viewport(
    trigger_top: int,
    trigger_left: int,
    trigger_width: int,
    trigger_height: int,
    content_width: int,
    content_height: int,
    side: OverlaySide,
    align: OverlayAlign,
    side_offset: int,
    viewport_width: int,
    viewport_height: int,
)
    ensures
        ({
            let pos = overlay_position(trigger_top, trigger_left, trigger_width, trigger_height,
                content_width, content_height, side, align, side_offset, viewport_width,
                viewport_height);
            &&& padding_half_units() <= pos.0 <= axis_limit(viewport_height, content_height)
            &&& padding_half_units() <= pos.1 <= axis_limit(viewport_width, content_width)
            &&& content_height <= viewport_height - 2 * VIEWPORT_PADDING ==> pos.0 + 2
                * content_height <= 2 * (viewport_height - VIEWPORT_PADDING)
            &&& content_width <= viewport_width - 2 * VIEWPORT_PADDING ==> pos.1 + 2
                * content_width <= 2 * (viewport_width - VIEWPORT_PADDING)
        }),
{
    let offset = offset_units(side_offset);
    let actual = chosen_side(side, trigger_top, trigger_left, trigger_width, trigger_height,
        content_width, content_height, offset, viewport_width, viewport_height);
    let anchored = anchored_position(actual, align, trigger_top, trigger_left, trigger_width,
        trigger_height, content_width, content_height, offset);
    lemma_clamped_stays_within_viewport(anchored.0, anchored.1, content_width, content_height,
        viewport_width, viewport_height);
}

/// An overlay placed on a side that has room for it is never clamped back over
/// its trigger: the gap of `side_offset` between them stays open.
pub proof fn lemma_overlay_on_a_fitting_side_clears_its_trigger(
    trigger_top: int,
    trigger_left: int,
    trigger_width: int,
    trigger_height: int,
    content_width: int,
    content_height: int,
    side: OverlaySide,
    align: OverlayAlign,
    side_offset: int,
    viewport_width: int,
    viewport_height: int,
)
    requires
        ({
            let offset = offset_units(side_offset);
            let chosen = chosen_side(side, trigger_top, trigger_left, trigger_width,
                trigger_height, content_width, content_height, offset, viewport_width,
                viewport_height);
            side_room(chosen, trigger_top, trigger_left, trigger_width, trigger_height, offset,
                viewport_width, viewport_height) >= needed_room(chosen, content_width,
                content_height)
        }),
    ensures
        ({
            let offset = offset_units(side_offset);
            let chosen = chosen_side(side, trigger_top, trigger_left, trigger_width,
                trigger_height, content_width, content_height, offset, viewport_width,
                viewport_height);
            let pos = overlay_position(trigger_top, trigger_left, trigger_width, trigger_height,
                content_width, content_height, side, align, side_offset, viewport_width,
                viewport_height);
            match chosen {
                OverlaySide::Top => pos.0 + 2 * content_height <= 2 * (trigger_top - offset),
                OverlaySide::Bottom => pos.0 >= 2 * (trigger_top + trigger_height + offset),
                OverlaySide::Left => pos.1 + 2 * content_width <= 2 * (trigger_left - offset),
                OverlaySide::Right => pos.1 >= 2 * (trigger_left + trigger_width + offset),
            }
        }),
{
}

/// Whenever the requested side has room, `calculate_position` keeps the
/// overlay on that side and off the trigger.
pub proof fn lemma_fitting_request_is_honoured(
    trigger_top: int,
    trigger_left: int,
    trigger_width: int,
    trigger_height: int,
    content_width: int,
    content_height: int,
    side: OverlaySide,
    align: OverlayAlign,
    side_offset: int,
    viewport_width: int,
    viewport_height: int,
)
    requires
        side_room(side, trigger_top, trigger_left, trigger_width, trigger_height, offset_units(
            side_offset), viewport_width, viewport_height) >= needed_room(side, content_width,
            content_height),
    ensures
        ({
            let offset = offset_units(side_offset);
            let pos = overlay_position(trigger_top, trigger_left, trigger_width, trigger_height,
                content_width, content_height, side, align, side_offset, viewport_width,
                viewport_height);
            match side {
                OverlaySide::Top => pos.0 + 2 * content_height <= 2 * (trigger_top - offset),
                OverlaySide::Bottom => pos.0 >= 2 * (trigger_top + trigger_height + offset),
                OverlaySide::Left => pos.1 + 2 * content_width <= 2 * (trigger_left - offset),
                OverlaySide::Right => pos.1 >= 2 * (trigger_left + trigger_width + offset),
            }
        }),
{
    lemma_requested_side_kept_when_it_fits(side, trigger_top, trigger_left, trigger_width,
        trigger_height, content_width, content_height, offset_units(side_offset), viewport_width,
        viewport_height);
    lemma_overlay_on_a_fitting_side_clears_its_trigger(trigger_top, trigger_left, trigger_width,
        trigger_height, content_width, content_height, side, align, side_offset, viewport_width,
        viewport_height);
}

/// Content centred above or below its trigger has its middle exactly over the
/// trigger's middle, unless the clamp has to move it to stay in the viewport.
pub proof fn lemma_centred_overlay_shares_the_trigger_middle(
    trigger_top: int,
    trigger_left: int,
    trigger_width: int,
    trigger_height: int,
    content_width: int,
    content_height: int,
    side: OverlaySide,
    side_offset: int,
    viewport_width: int,
    viewport_height: int,
)
    requires
        ({
            let chosen = chosen_side(side, trigger_top, trigger_left, trigger_width,
                trigger_height, content_width, content_height, offset_units(side_offset),
                viewport_width, viewport_height);
            chosen == OverlaySide::Top || chosen == OverlaySide::Bottom
        }),
        padding_half_units() <= 2 * trigger_left + trigger_width - content_width,
        2 * trigger_left + trigger_width + content_width <= 2 * (viewport_width
            - VIEWPORT_PADDING),
    ensures
        ({
            let pos = overlay_position(trigger_top, trigger_left, trigger_width, trigger_height,
                content_width, content_height, side, OverlayAlign::Center, side_offset,
                viewport_width, viewport_height);
            pos.1 + content_width == 2 * trigger_left + trigger_width
        }),
{
}

/// Which side the overlay gets, written out with the room on each side of the
/// trigger (from its edge plus the offset to the 8 px padding, 512 layout
/// units) and the content's extent across that side: its height above or
/// below the trigger, its width beside it.
///
/// The requested side is kept whenever the content fits there; otherwise the
/// opposite side is taken when the content fits there; when it fits on
/// neither, the requested side is kept exactly when it has strictly more room.
pub proof fn lemma_fitting_side_by_room(
    side: OverlaySide,
    trigger_top: int,
    trigger_left: int,
    trigger_width: int,
    trigger_height: int,
    content_width: int,
    content_height: int,
    offset: int,
    viewport_width: int,
    viewport_height: int,
)
    ensures
        ({
            let chosen = chosen_side(side, trigger_top, trigger_left, trigger_width,
                trigger_height, content_width, content_height, offset, viewport_width,
                viewport_height);
            let above = trigger_top - offset - 512;
            let below = viewport_height - 512 - (trigger_top + trigger_height + offset);
            let before = trigger_left - offset - 512;
            let after = viewport_width - 512 - (trigger_left + trigger_width + offset);
            match side {
                OverlaySide::Top => {
                    &&& above >= content_height ==> chosen == OverlaySide::Top
                    &&& above < content_height && below >= content_height ==> chosen
                        == OverlaySide::Bottom
                    &&& above < content_height && below < content_height ==> (chosen
                        == OverlaySide::Top <==> below < above)
                    &&& chosen == OverlaySide::Top || chosen == OverlaySide::Bottom
                },
                OverlaySide::Bottom => {
                    &&& below >= content_height ==> chosen == OverlaySide::Bottom
                    &&& below < content_height && above >= content_height ==> chosen
                        == OverlaySide::Top
                    &&& below < content_height && above < content_height ==> (chosen
                        == OverlaySide::Bottom <==> above < below)
                    &&& chosen == OverlaySide::Top || chosen == OverlaySide::Bottom
                },
                OverlaySide::Left => {
                    &&& before >= content_width ==> chosen == OverlaySide::Left
                    &&& before < content_width && after >= content_width ==> chosen
                        == OverlaySide::Right
                    &&& before < content_width && after < content_width ==> (chosen
                        == OverlaySide::Left <==> after < before)
                    &&& chosen == OverlaySide::Left || chosen == OverlaySide::Right
                },
                OverlaySide::Right => {
                    &&& after >= content_width ==> chosen == OverlaySide::Right
                    &&& after < content_width && before >= content_width ==> chosen
                        == OverlaySide::Left
                    &&& after < content_width && before < content_width ==> (chosen
                        == OverlaySide::Right <==> before < after)
                    &&& chosen == OverlaySide::Left || chosen == OverlaySide::Right
                },
            }
        }),
{
}

/// Where the overlay goes on the side it gets, in half units, before the
/// clamp: against that side of the trigger, `offset` away, and along the
/// trigger as `align` says: its start edge on the trigger's start edge, its
/// middle on the trigger's middle, or its end edge on the trigger's end edge.
pub open spec fn placed_against(
    chosen: OverlaySide,
    align: OverlayAlign,
    trigger_top: int,
    trigger_left: int,
    trigger_width: int,
    trigger_height: int,
    content_width: int,
    content_height: int,
    offset: int,
) -> (int, int) {
    let along_x = match align {
        OverlayAlign::Start => 2 * trigger_left,
        OverlayAlign::Center => 2 * trigger_left + trigger_width - content_width,
        OverlayAlign::End => 2 * (trigger_left + trigger_width - content_width),
    };
    let along_y = match align {
        OverlayAlign::Start => 2 * trigger_top,
        OverlayAlign::Center => 2 * trigger_top + trigger_height - content_height,
        OverlayAlign::End => 2 * (trigger_top + trigger_height - content_height),
    };
    match chosen {
        OverlaySide::Top => (2 * (trigger_top - content_height - offset), along_x),
        OverlaySide::Bottom => (2 * (trigger_top + trigger_height + offset), along_x),
        OverlaySide::Left => (along_y, 2 * (trigger_left - content_width - offset)),
        OverlaySide::Right => (along_y, 2 * (trigger_left + trigger_width + offset)),
    }
}

/// A position inside the padded viewport stays put; one outside is moved to the
/// nearest padded edge, and content too large for the viewport is pinned to
/// the top/left padding (1024 half units, 8 px).
pub open spec fn kept_inside(value: int, viewport_extent: int, content_extent: int) -> int {
    let far = 2 * (viewport_extent - content_extent - 512);
    if value < 1024 {
        1024
    } else if far < 1024 {
        1024
    } else if value > far {
        far
    } else {
        value
    }
}

/// `calculate_position` puts the overlay against the side it gets, `side_offset`
/// pixels (64 layout units each) away, aligned along the trigger as asked, on
/// either axis and for every side, and then keeps it inside the padded
/// viewport.
pub proof fn lemma_overlay_position_by_side_and_align(
    trigger_top: int,
    trigger_left: int,
    trigger_width: int,
    trigger_height: int,
    content_width: int,
    content_height: int,
    side: OverlaySide,
    align: OverlayAlign,
    side_offset: int,
    viewport_width: int,
    viewport_height: int,
)
    ensures
        ({
            let offset = 64 * side_offset;
            let chosen = chosen_side(side, trigger_top, trigger_left, trigger_width,
                trigger_height, content_width, content_height, offset, viewport_width,
                viewport_height);
            let placed = placed_against(chosen, align, trigger_top, trigger_left, trigger_width,
                trigger_height, content_width, content_height, offset);
            let pos = overlay_position(trigger_top, trigger_left, trigger_width, trigger_height,
                content_width, content_height, side, align, side_offset, viewport_width,
                viewport_height);
            &&& pos.0 == kept_inside(placed.0, viewport_height, content_height)
            &&& pos.1 == kept_inside(placed.1, viewport_width, content_width)
        }),
{
}

/// Beside the trigger (on the left or the right), a card that stays inside
/// the padded viewport lines its top up with the trigger's top for `Start`,
/// its middle with the trigger's middle for `Center`, and its bottom with the
/// trigger's bottom for `End`; above or below the trigger the same holds of
/// its left edge, middle and right edge.
pub proof fn lemma_cross_axis_follows_align(
    trigger_top: int,
    trigger_left: int,
    trigger_width: int,
    trigger_height: int,
    content_width: int,
    content_height: int,
    side: OverlaySide,
    align: OverlayAlign,
    side_offset: int,
    viewport_width: int,
    viewport_height: int,
)
    requires
        ({
            let offset = 64 * side_offset;
            let chosen = chosen_side(side, trigger_top, trigger_left, trigger_width,
                trigger_height, content_width, content_height, offset, viewport_width,
                viewport_height);
            let pos = overlay_position(trigger_top, trigger_left, trigger_width, trigger_height,
                content_width, content_height, side, align, side_offset, viewport_width,
                viewport_height);
            let along = if chosen == OverlaySide::Left || chosen == OverlaySide::Right {
                pos.0
            } else {
                pos.1
            };
            let (extent, viewport) = if chosen == OverlaySide::Left || chosen
                == OverlaySide::Right {
                (content_height, viewport_height)
            } else {
                (content_width, viewport_width)
            };
            1024 < along && along + 2 * extent < 2 * (viewport - 512)
        }),
    ensures
        ({
            let offset = 64 * side_offset;
            let chosen = chosen_side(side, trigger_top, trigger_left, trigger_width,
                trigger_height, content_width, content_height, offset, viewport_width,
                viewport_height);
            let pos = overlay_position(trigger_top, trigger_left, trigger_width, trigger_height,
                content_width, content_height, side, align, side_offset, viewport_width,
                viewport_height);
            if chosen == OverlaySide::Left || chosen == OverlaySide::Right {
                match align {
                    OverlayAlign::Start => pos.0 == 2 * trigger_top,
                    OverlayAlign::Center => pos.0 + content_height == 2 * trigger_top
                        + trigger_height,
                    OverlayAlign::End => pos.0 + 2 * content_height == 2 * (trigger_top
                        + trigger_height),
                }
            } else {
                match align {
                    OverlayAlign::Start => pos.1 == 2 * trigger_left,
                    OverlayAlign::Center => pos.1 + content_width == 2 * trigger_left
                        + trigger_width,
                    OverlayAlign::End => pos.1 + 2 * content_width == 2 * (trigger_left
                        + trigger_width),
                }
            }
        }),
{
    lemma_overlay_position_by_side_and_align(trigger_top, trigger_left, trigger_width,
        trigger_height, content_width, content_height, side, align, side_offset, viewport_width,
        viewport_height);
}

/// On the side it gets, a card that stays inside the padded viewport touches
/// the trigger's edge plus `side_offset` pixels: below it starts that far under
/// the trigger's bottom, above it ends that far over the trigger's top, and
/// likewise to the right and to the left.
pub proof fn lemma_main_axis_keeps_the_offset(
    trigger_top: int,
    trigger_left: int,
    trigger_width: int,
    trigger_height: int,
    content_width: int,
    content_height: int,
    side: OverlaySide,
    align: OverlayAlign,
    side_offset: int,
    viewport_width: int,
    viewport_height: int,
)
    requires
        ({
            let offset = 64 * side_offset;
            let chosen = chosen_side(side, trigger_top, trigger_left, trigger_width,
                trigger_height, content_width, content_height, offset, viewport_width,
                viewport_height);
            let pos = overlay_position(trigger_top, trigger_left, trigger_width, trigger_height,
                content_width, content_height, side, align, side_offset, viewport_width,
                viewport_height);
            let (across, extent, viewport) = if chosen == OverlaySide::Left || chosen
                == OverlaySide::Right {
                (pos.1, content_width, viewport_width)
            } else {
                (pos.0, content_height, viewport_height)
            };
            1024 < across && across + 2 * extent < 2 * (viewport - 512)
        }),
    ensures
        ({
            let offset = 64 * side_offset;
            let chosen = chosen_side(side, trigger_top, trigger_left, trigger_width,
                trigger_height, content_width, content_height, offset, viewport_width,
                viewport_height);
            let pos = overlay_position(trigger_top, trigger_left, trigger_width, trigger_height,
                content_width, content_height, side, align, side_offset, viewport_width,
                viewport_height);
            match chosen {
                OverlaySide::Top => pos.0 + 2 * content_height + 2 * offset == 2 * trigger_top,
                OverlaySide::Bottom => pos.0 == 2 * (trigger_top + trigger_height) + 2 * offset,
                OverlaySide::Left => pos.1 + 2 * content_width + 2 * offset == 2 * trigger_left,
                OverlaySide::Right => pos.1 == 2 * (trigger_left + trigger_width) + 2 * offset,
            }
        }),
{
    lemma_overlay_position_by_side_and_align(trigger_top, trigger_left, trigger_width,
        trigger_height, content_width, content_height, side, align, side_offset, viewport_width,
        viewport_height);
}

/// Across the trigger from the top is the bottom and from the left the right,
/// and the other way round.
pub proof fn lemma_opposite_sides_face_each_other()
    ensures
        opposite_side(OverlaySide::Top) == OverlaySide::Bottom,
        opposite_side(OverlaySide::Bottom) == OverlaySide::Top,
        opposite_side(OverlaySide::Left) == OverlaySide::Right,
        opposite_side(OverlaySide::Right) == OverlaySide::Left,
{
}

/// Clamping moves a position only as far as it must: one inside the padded
/// viewport stays put, one past an edge goes to that padded edge, and content
/// too large for the viewport is pinned to the top/left padding (1024 half
/// units, 8 px).
pub proof fn lemma_clamp_by_viewport(
    top: int,
    left: int,
    content_width: int,
    content_height: int,
    viewport_width: int,
    viewport_height: int,
)
    ensures
        clamped_position(top, left, content_width, content_height, viewport_width,
            viewport_height) == (kept_inside(top, viewport_height, content_height), kept_inside(
            left,
            viewport_width,
            content_width,
        )),
{
}

} // verus!

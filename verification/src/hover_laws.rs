//! What the hover-card timers promise, proved over the model that
//! `HoverCardState::step` is held to.
use vstd::prelude::*;
use crate::hover_card::{
    ClientRect, HoverCardState, HoverEvent, TimerCommand, card_class_list, data_state_text,
    initial_state, point_in_rect, slide_class_text, step_commands, step_state,
};
use crate::position::{
    OverlayAlign, OverlaySide, anchored_position, chosen_side, clamped_position, offset_units,
    opposite_side, overlay_position,
};

verus! {

/// Leaving the trigger into the card is not leaving: the pending open is
/// cancelled, but no close is started and a held close timer stays as it is.
pub proof fn lemma_leaving_into_the_card_is_not_leaving(s: HoverCardState)
    ensures
        ({
            let e = HoverEvent::TriggerLeave { pointer_on_card: true };
            let cmds = step_commands(s, e);
            &&& forall|i: int| 0 <= i < cmds.len() ==> cmds[i] == TimerCommand::ClearOpenTimer
            &&& step_state(s, e).close_timer_held == s.close_timer_held
            &&& !step_state(s, e).open_timer_held
        }),
{
}

/// Leaving the trigger anywhere else starts the close timer with the close
/// delay, after cancelling a pending open.
pub proof fn lemma_leaving_elsewhere_closes_after_delay(s: HoverCardState)
    ensures
        ({
            let e = HoverEvent::TriggerLeave { pointer_on_card: false };
            let cmds = step_commands(s, e);
            &&& cmds.len() >= 1
            &&& cmds.last() == TimerCommand::StartCloseTimer { delay_ms: s.close_delay }
            &&& !step_state(s, e).open_timer_held
        }),
{
}

/// The trigger and the card are one hover region: a held close timer, whoever
/// started it, is cleared by the pointer entering either of them.
pub proof fn lemma_either_half_cancels_a_pending_close(s: HoverCardState, e: HoverEvent)
    requires
        s.close_timer_held,
        e == HoverEvent::CardEnter || e == HoverEvent::TriggerEnter,
    ensures
        step_commands(s, e).len() >= 1,
        step_commands(s, e)[0] == TimerCommand::ClearCloseTimer,
        !step_state(s, e).close_timer_held,
{
}

/// A close that the trigger started, once its handle is held, is cancelled by
/// the pointer entering the card; one the card started is cancelled by the
/// pointer coming back onto the trigger, which then opens after the delay.
pub proof fn lemma_close_started_by_one_half_is_cancelled_by_the_other(s: HoverCardState)
    ensures
        ({
            let left_trigger = step_state(s, HoverEvent::TriggerLeave { pointer_on_card: false });
            let held = step_state(left_trigger, HoverEvent::CloseTimerStarted { held: true });
            &&& step_commands(held, HoverEvent::CardEnter) == seq![TimerCommand::ClearCloseTimer]
            &&& !step_state(held, HoverEvent::CardEnter).close_timer_held
        }),
        ({
            let left_card = step_state(s, HoverEvent::CardLeave);
            let held = step_state(left_card, HoverEvent::CloseTimerStarted { held: true });
            &&& step_commands(held, HoverEvent::TriggerEnter) == seq![
                TimerCommand::ClearCloseTimer,
                TimerCommand::StartOpenTimer { delay_ms: s.open_delay },
            ]
            &&& !step_state(held, HoverEvent::TriggerEnter).close_timer_held
        }),
{
}

/// Opening and closing exclude each other: starting to open drops the close
/// timer, starting to close drops the open timer.
pub proof fn lemma_open_and_close_exclude_each_other(s: HoverCardState, e: HoverEvent)
    ensures
        e == HoverEvent::TriggerEnter ==> !step_state(s, e).close_timer_held,
        (e is TriggerLeave || e == HoverEvent::CardLeave) ==> !step_state(s, e).open_timer_held,
{
}

/// Every timer is started with the configured delay, and no event changes
/// the delays.
pub proof fn lemma_timers_use_the_configured_delays(s: HoverCardState, e: HoverEvent)
    ensures
        forall|i: int|
            0 <= i < step_commands(s, e).len() ==> match #[trigger] step_commands(s, e)[i] {
                TimerCommand::StartOpenTimer { delay_ms } => delay_ms == s.open_delay,
                TimerCommand::StartCloseTimer { delay_ms } => delay_ms == s.close_delay,
                _ => true,
            },
        step_state(s, e).open_delay == s.open_delay,
        step_state(s, e).close_delay == s.close_delay,
{
}

/// Only held timers are cleared, and a clear drops the handle.
pub proof fn lemma_only_held_timers_are_cleared(s: HoverCardState, e: HoverEvent)
    ensures
        step_commands(s, e).contains(TimerCommand::ClearOpenTimer) ==> s.open_timer_held
            && !step_state(s, e).open_timer_held,
        step_commands(s, e).contains(TimerCommand::ClearCloseTimer) ==> s.close_timer_held
            && !step_state(s, e).close_timer_held,
{
}

/// Only an elapsed timer shows or hides the card: the open timer shows it, the
/// close timer hides it.
pub proof fn lemma_only_elapsed_timers_show_or_hide(s: HoverCardState, e: HoverEvent, open: bool)
    ensures
        step_commands(s, e).contains(TimerCommand::SetOpen { open }) <==> (if open {
            e == HoverEvent::OpenTimerElapsed
        } else {
            e == HoverEvent::CloseTimerElapsed
        }),
{
    let cmds = step_commands(s, e);
    if e == HoverEvent::OpenTimerElapsed && open {
        assert(cmds[0] == TimerCommand::SetOpen { open });
    }
    if e == HoverEvent::CloseTimerElapsed && !open {
        assert(cmds[0] == TimerCommand::SetOpen { open });
    }
}

/// Cancelling twice asks for nothing the second time.
pub proof fn lemma_cancelling_again_asks_nothing(s: HoverCardState)
    ensures
        step_commands(step_state(s, HoverEvent::CardEnter), HoverEvent::CardEnter) == Seq::<
            TimerCommand,
        >::empty(),
        step_commands(
            step_state(s, HoverEvent::TriggerLeave { pointer_on_card: true }),
            HoverEvent::TriggerLeave { pointer_on_card: true },
        ) == Seq::<TimerCommand>::empty(),
{
}

/// One pair of timers per card: a timer is never started while a handle of
/// the same kind is held unless the same list clears that handle first, and
/// after the list no handle of that kind is held, so the one started next is
/// the only one.
pub proof fn lemma_a_timer_is_started_only_after_its_predecessor_is_cleared(
    s: HoverCardState,
    e: HoverEvent,
)
    ensures
        forall|i: int|
            #![trigger step_commands(s, e)[i]]
            0 <= i < step_commands(s, e).len() && step_commands(s, e)[i] is StartOpenTimer
                && s.open_timer_held ==> step_commands(s, e).subrange(0, i).contains(
                TimerCommand::ClearOpenTimer,
            ),
        forall|i: int|
            #![trigger step_commands(s, e)[i]]
            0 <= i < step_commands(s, e).len() && step_commands(s, e)[i] is StartCloseTimer
                && s.close_timer_held ==> step_commands(s, e).subrange(0, i).contains(
                TimerCommand::ClearCloseTimer,
            ),
        (exists|i: int|
            0 <= i < step_commands(s, e).len() && #[trigger] step_commands(s, e)[i]
                is StartOpenTimer) ==> !step_state(s, e).open_timer_held,
        (exists|i: int|
            0 <= i < step_commands(s, e).len() && #[trigger] step_commands(s, e)[i]
                is StartCloseTimer) ==> !step_state(s, e).close_timer_held,
{
    let cmds = step_commands(s, e);
    if s.open_timer_held {
        assert forall|i: int|
            #![trigger cmds[i]]
            0 <= i < cmds.len() && cmds[i] is StartOpenTimer implies cmds.subrange(0, i).contains(
            TimerCommand::ClearOpenTimer,
        ) by {
            let pre = cmds.subrange(0, i);
            if s.close_timer_held {
                assert(pre[1] == TimerCommand::ClearOpenTimer);
            } else {
                assert(pre[0] == TimerCommand::ClearOpenTimer);
            }
        }
    }
    if s.close_timer_held {
        assert forall|i: int|
            #![trigger cmds[i]]
            0 <= i < cmds.len() && cmds[i] is StartCloseTimer implies cmds.subrange(
            0,
            i,
        ).contains(TimerCommand::ClearCloseTimer) by {
            let pre = cmds.subrange(0, i);
            if s.open_timer_held {
                assert(pre[1] == TimerCommand::ClearCloseTimer);
            } else {
                assert(pre[0] == TimerCommand::ClearCloseTimer);
            }
        }
    }
}

/// Closing twice in a row, once from each half, still leaves a close that the
/// pointer entering the card cancels: the second close cleared the first.
pub proof fn lemma_repeated_close_is_still_cancellable(s: HoverCardState)
    ensures
        ({
            let first = step_state(
                step_state(s, HoverEvent::CardLeave),
                HoverEvent::CloseTimerStarted { held: true },
            );
            let again = HoverEvent::TriggerLeave { pointer_on_card: false };
            let second = step_state(
                step_state(first, again),
                HoverEvent::CloseTimerStarted { held: true },
            );
            &&& step_commands(first, again) == seq![
                TimerCommand::ClearCloseTimer,
                TimerCommand::StartCloseTimer { delay_ms: s.close_delay },
            ]
            &&& step_commands(second, HoverEvent::CardEnter) == seq![TimerCommand::ClearCloseTimer]
            &&& !step_state(second, HoverEvent::CardEnter).close_timer_held
        }),
{
    let first = step_state(
        step_state(s, HoverEvent::CardLeave),
        HoverEvent::CloseTimerStarted { held: true },
    );
    let again = HoverEvent::TriggerLeave { pointer_on_card: false };
    assert(step_commands(first, again) =~= seq![
        TimerCommand::ClearCloseTimer,
        TimerCommand::StartCloseTimer { delay_ms: s.close_delay },
    ]);
}

/// Opening twice in a row clears the first open timer before starting the
/// second, so a later cancel stops every pending open.
pub proof fn lemma_repeated_open_replaces_the_first(s: HoverCardState)
    ensures
        ({
            let first = step_state(
                step_state(s, HoverEvent::TriggerEnter),
                HoverEvent::OpenTimerStarted { held: true },
            );
            let second = step_state(
                step_state(first, HoverEvent::TriggerEnter),
                HoverEvent::OpenTimerStarted { held: true },
            );
            &&& step_commands(first, HoverEvent::TriggerEnter) == seq![
                TimerCommand::ClearOpenTimer,
                TimerCommand::StartOpenTimer { delay_ms: s.open_delay },
            ]
            &&& step_commands(second, HoverEvent::CardLeave) == seq![
                TimerCommand::ClearOpenTimer,
                TimerCommand::StartCloseTimer { delay_ms: s.close_delay },
            ]
        }),
{
    let first = step_state(
        step_state(s, HoverEvent::TriggerEnter),
        HoverEvent::OpenTimerStarted { held: true },
    );
    let second = step_state(
        step_state(first, HoverEvent::TriggerEnter),
        HoverEvent::OpenTimerStarted { held: true },
    );
    assert(step_commands(first, HoverEvent::TriggerEnter) =~= seq![
        TimerCommand::ClearOpenTimer,
        TimerCommand::StartOpenTimer { delay_ms: s.open_delay },
    ]);
    assert(step_commands(second, HoverEvent::CardLeave) =~= seq![
        TimerCommand::ClearOpenTimer,
        TimerCommand::StartCloseTimer { delay_ms: s.close_delay },
    ]);
}

/// Whatever hides a card hides it completely: a closed card is made invisible,
/// which also takes it out of the tab order, and out of pointer reach, while
/// it stays mounted.
pub proof fn lemma_closed_card_is_hidden_from_keyboard_and_pointer(
    requested_side: OverlaySide,
    extra: Seq<char>,
)
    ensures
        card_class_list(requested_side, extra).contains("data-[state=closed]:invisible"@),
        card_class_list(requested_side, extra).contains(
            "data-[state=closed]:pointer-events-none"@,
        ),
{
    let classes = card_class_list(requested_side, extra);
    assert(classes[16] == "data-[state=closed]:invisible"@);
    assert(classes[18] == "data-[state=closed]:pointer-events-none"@);
}

/// Only the position flips: when the requested side has no room and the card
/// is placed on the opposite side, its slide animation still follows the side
/// that was asked for.
pub proof fn lemma_only_the_position_flips(
    trigger_top: int,
    trigger_left: int,
    trigger_width: int,
    trigger_height: int,
    content_width: int,
    content_height: int,
    side: OverlaySide,
    align: OverlayAlign,
    side_offset: int,
    viewport_width: int,
    viewport_height: int,
    extra: Seq<char>,
)
    requires
        chosen_side(side, trigger_top, trigger_left, trigger_width, trigger_height,
            content_width, content_height, offset_units(side_offset), viewport_width,
            viewport_height) == opposite_side(side),
    ensures
        ({
            let anchored = anchored_position(opposite_side(side), align, trigger_top,
                trigger_left, trigger_width, trigger_height, content_width, content_height,
                offset_units(side_offset));
            overlay_position(trigger_top, trigger_left, trigger_width, trigger_height,
                content_width, content_height, side, align, side_offset, viewport_width,
                viewport_height) == clamped_position(anchored.0, anchored.1, content_width,
                content_height, viewport_width, viewport_height)
        }),
        card_class_list(side, extra).contains(slide_class_text(side)),
{
    assert(card_class_list(side, extra)[22] == slide_class_text(side));
}

/// A card's own classes never hide, collapse or disable it outright: every
/// one of them that does (`invisible`, `opacity-0`, `pointer-events-none`,
/// `h-0`, `w-0`, `overflow-hidden`) is there only under the closed-state
/// prefix, so an open card is seen and reached, and a closed one is taken out
/// of sight, the tab order and pointer reach. Only the caller's own class,
/// which comes last, is left as given.
pub proof fn lemma_only_a_closed_card_is_hidden(requested_side: OverlaySide, extra: Seq<char>)
    ensures
        forall|i: int|
            0 <= i < 23 ==> {
                &&& #[trigger] card_class_list(requested_side, extra)[i] != "invisible"@
                &&& card_class_list(requested_side, extra)[i] != "opacity-0"@
                &&& card_class_list(requested_side, extra)[i] != "pointer-events-none"@
                &&& card_class_list(requested_side, extra)[i] != "h-0"@
                &&& card_class_list(requested_side, extra)[i] != "w-0"@
                &&& card_class_list(requested_side, extra)[i] != "overflow-hidden"@
                &&& card_class_list(requested_side, extra)[i] != "hidden"@
            },
        card_class_list(requested_side, extra).contains("data-[state=closed]:invisible"@),
        card_class_list(requested_side, extra).contains("data-[state=closed]:opacity-0"@),
        card_class_list(requested_side, extra).contains("data-[state=closed]:pointer-events-none"@),
        card_class_list(requested_side, extra).contains("data-[state=closed]:h-0"@),
        card_class_list(requested_side, extra).contains("data-[state=closed]:w-0"@),
        card_class_list(requested_side, extra).contains("data-[state=closed]:overflow-hidden"@),
{
    let classes = card_class_list(requested_side, extra);
    assert forall|i: int| 0 <= i < 23 implies {
        &&& #[trigger] classes[i] != "invisible"@
        &&& classes[i] != "opacity-0"@
        &&& classes[i] != "pointer-events-none"@
        &&& classes[i] != "h-0"@
        &&& classes[i] != "w-0"@
        &&& classes[i] != "overflow-hidden"@
        &&& classes[i] != "hidden"@
    } by {
        reveal_strlit("invisible");
        assert("invisible"@[0] == 'i');
        reveal_strlit("opacity-0");
        assert("opacity-0"@[0] == 'o');
        reveal_strlit("pointer-events-none");
        assert("pointer-events-none"@[0] == 'p');
        reveal_strlit("h-0");
        assert("h-0"@[0] == 'h');
        reveal_strlit("w-0");
        assert("w-0"@[0] == 'w');
        reveal_strlit("overflow-hidden");
        assert("overflow-hidden"@[0] == 'o');
        reveal_strlit("hidden");
        assert("hidden"@[0] == 'h');
        if i == 0 {
            reveal_strlit("bg-popover");
            assert(classes[0] == "bg-popover"@);
            assert(classes[0][0] == 'b');
        } else if i == 1 {
            reveal_strlit("text-popover-foreground");
            assert(classes[1] == "text-popover-foreground"@);
            assert(classes[1][0] == 't');
        } else if i == 2 {
            reveal_strlit("fixed");
            assert(classes[2] == "fixed"@);
            assert(classes[2][0] == 'f');
        } else if i == 3 {
            reveal_strlit("z-50");
            assert(classes[3] == "z-50"@);
            assert(classes[3][0] == 'z');
        } else if i == 4 {
            reveal_strlit("w-64");
            assert(classes[4] == "w-64"@);
            assert(classes[4][0] == 'w');
        } else if i == 5 {
            reveal_strlit("rounded-md");
            assert(classes[5] == "rounded-md"@);
            assert(classes[5][0] == 'r');
        } else if i == 6 {
            reveal_strlit("border");
            assert(classes[6] == "border"@);
            assert(classes[6][0] == 'b');
        } else if i == 7 {
            reveal_strlit("p-4");
            assert(classes[7] == "p-4"@);
            assert(classes[7][0] == 'p');
        } else if i == 8 {
            reveal_strlit("shadow-md");
            assert(classes[8] == "shadow-md"@);
            assert(classes[8][0] == 's');
        } else if i == 9 {
            reveal_strlit("outline-hidden");
            assert(classes[9] == "outline-hidden"@);
            assert(classes[9][0] == 'o');
        } else if i == 10 {
            reveal_strlit("data-[state=open]:animate-in");
            assert(classes[10] == "data-[state=open]:animate-in"@);
            assert(classes[10][0] == 'd');
        } else if i == 11 {
            reveal_strlit("data-[state=closed]:animate-out");
            assert(classes[11] == "data-[state=closed]:animate-out"@);
            assert(classes[11][0] == 'd');
        } else if i == 12 {
            reveal_strlit("data-[state=closed]:fade-out-0");
            assert(classes[12] == "data-[state=closed]:fade-out-0"@);
            assert(classes[12][0] == 'd');
        } else if i == 13 {
            reveal_strlit("data-[state=open]:fade-in-0");
            assert(classes[13] == "data-[state=open]:fade-in-0"@);
            assert(classes[13][0] == 'd');
        } else if i == 14 {
            reveal_strlit("data-[state=closed]:zoom-out-95");
            assert(classes[14] == "data-[state=closed]:zoom-out-95"@);
            assert(classes[14][0] == 'd');
        } else if i == 15 {
            reveal_strlit("data-[state=open]:zoom-in-95");
            assert(classes[15] == "data-[state=open]:zoom-in-95"@);
            assert(classes[15][0] == 'd');
        } else if i == 16 {
            reveal_strlit("data-[state=closed]:invisible");
            assert(classes[16] == "data-[state=closed]:invisible"@);
            assert(classes[16][0] == 'd');
        } else if i == 17 {
            reveal_strlit("data-[state=closed]:opacity-0");
            assert(classes[17] == "data-[state=closed]:opacity-0"@);
            assert(classes[17][0] == 'd');
        } else if i == 18 {
            reveal_strlit("data-[state=closed]:pointer-events-none");
            assert(classes[18] == "data-[state=closed]:pointer-events-none"@);
            assert(classes[18][0] == 'd');
        } else if i == 19 {
            reveal_strlit("data-[state=closed]:h-0");
            assert(classes[19] == "data-[state=closed]:h-0"@);
            assert(classes[19][0] == 'd');
        } else if i == 20 {
            reveal_strlit("data-[state=closed]:w-0");
            assert(classes[20] == "data-[state=closed]:w-0"@);
            assert(classes[20][0] == 'd');
        } else if i == 21 {
            reveal_strlit("data-[state=closed]:overflow-hidden");
            assert(classes[21] == "data-[state=closed]:overflow-hidden"@);
            assert(classes[21][0] == 'd');
        } else {
            assert(classes[22] == slide_class_text(requested_side));
            reveal_strlit("data-[state=open]:slide-in-from-bottom-2 data-[state=closed]:slide-out-to-bottom-2");
            reveal_strlit("data-[state=open]:slide-in-from-left-2 data-[state=closed]:slide-out-to-left-2");
            reveal_strlit("data-[state=open]:slide-in-from-top-2 data-[state=closed]:slide-out-to-top-2");
            reveal_strlit("data-[state=open]:slide-in-from-right-2 data-[state=closed]:slide-out-to-right-2");
        }
    }
    assert(classes[16] == "data-[state=closed]:invisible"@);
    assert(classes[17] == "data-[state=closed]:opacity-0"@);
    assert(classes[18] == "data-[state=closed]:pointer-events-none"@);
    assert(classes[19] == "data-[state=closed]:h-0"@);
    assert(classes[20] == "data-[state=closed]:w-0"@);
    assert(classes[21] == "data-[state=closed]:overflow-hidden"@);
}

/// Class names joined by single spaces, as a `class` attribute holds them.
pub open spec fn joined_by_spaces(classes: Seq<Seq<char>>) -> Seq<char>
    decreases classes.len(),
{
    if classes.len() == 0 {
        Seq::empty()
    } else if classes.len() == 1 {
        classes[0]
    } else {
        classes[0] + " "@ + joined_by_spaces(classes.drop_first())
    }
}

/// The card's look comes first, and is the card's base class attribute
/// word for word: its surface, layer and size, its fade and zoom in and out,
/// and what takes a closed card out of sight, the tab order and pointer reach.
/// The slide animation for the requested side follows, and the caller's class
/// comes last.
#[verifier::rlimit(100)]
pub proof fn lemma_card_base_classes(requested_side: OverlaySide, extra: Seq<char>)
    ensures
        card_class_list(requested_side, extra).len() == 24,
        card_class_list(requested_side, extra)[22] == slide_class_text(requested_side),
        card_class_list(requested_side, extra)[23] == extra,
        joined_by_spaces(card_class_list(requested_side, extra).take(22)) == "bg-popover text-popover-foreground fixed z-50 w-64 rounded-md border p-4 shadow-md outline-hidden data-[state=open]:animate-in data-[state=closed]:animate-out data-[state=closed]:fade-out-0 data-[state=open]:fade-in-0 data-[state=closed]:zoom-out-95 data-[state=open]:zoom-in-95 data-[state=closed]:invisible data-[state=closed]:opacity-0 data-[state=closed]:pointer-events-none data-[state=closed]:h-0 data-[state=closed]:w-0 data-[state=closed]:overflow-hidden"@,
{
    reveal_with_fuel(joined_by_spaces, 23);
    reveal_strlit(" ");
    reveal_strlit("bg-popover");
    reveal_strlit("text-popover-foreground");
    reveal_strlit("fixed");
    reveal_strlit("z-50");
    reveal_strlit("w-64");
    reveal_strlit("rounded-md");
    reveal_strlit("border");
    reveal_strlit("p-4");
    reveal_strlit("shadow-md");
    reveal_strlit("outline-hidden");
    reveal_strlit("data-[state=open]:animate-in");
    reveal_strlit("data-[state=closed]:animate-out");
    reveal_strlit("data-[state=closed]:fade-out-0");
    reveal_strlit("data-[state=open]:fade-in-0");
    reveal_strlit("data-[state=closed]:zoom-out-95");
    reveal_strlit("data-[state=open]:zoom-in-95");
    reveal_strlit("data-[state=closed]:invisible");
    reveal_strlit("data-[state=closed]:opacity-0");
    reveal_strlit("data-[state=closed]:pointer-events-none");
    reveal_strlit("data-[state=closed]:h-0");
    reveal_strlit("data-[state=closed]:w-0");
    reveal_strlit("data-[state=closed]:overflow-hidden");
    reveal_strlit("bg-popover text-popover-foreground fixed z-50 w-64 rounded-md border p-4 shadow-md outline-hidden data-[state=open]:animate-in data-[state=closed]:animate-out data-[state=closed]:fade-out-0 data-[state=open]:fade-in-0 data-[state=closed]:zoom-out-95 data-[state=open]:zoom-in-95 data-[state=closed]:invisible data-[state=closed]:opacity-0 data-[state=closed]:pointer-events-none data-[state=closed]:h-0 data-[state=closed]:w-0 data-[state=closed]:overflow-hidden");
    assert(joined_by_spaces(card_class_list(requested_side, extra).take(22)) =~= "bg-popover text-popover-foreground fixed z-50 w-64 rounded-md border p-4 shadow-md outline-hidden data-[state=open]:animate-in data-[state=closed]:animate-out data-[state=closed]:fade-out-0 data-[state=open]:fade-in-0 data-[state=closed]:zoom-out-95 data-[state=open]:zoom-in-95 data-[state=closed]:invisible data-[state=closed]:opacity-0 data-[state=closed]:pointer-events-none data-[state=closed]:h-0 data-[state=closed]:w-0 data-[state=closed]:overflow-hidden"@);
}

/// Each delay is the one given for it, or its own default (700 ms to open,
/// 300 ms to close), whatever is given for the other; a new card holds no
/// timer.
pub proof fn lemma_delays_default_independently(
    open_delay: Option<u32>,
    close_delay: Option<u32>,
    other_open: Option<u32>,
    other_close: Option<u32>,
)
    ensures
        initial_state(open_delay, close_delay).open_delay == (match open_delay {
            Some(d) => d,
            None => 700u32,
        }),
        initial_state(open_delay, close_delay).close_delay == (match close_delay {
            Some(d) => d,
            None => 300u32,
        }),
        initial_state(open_delay, close_delay).open_delay == initial_state(
            open_delay,
            other_close,
        ).open_delay,
        initial_state(open_delay, close_delay).close_delay == initial_state(
            other_open,
            close_delay,
        ).close_delay,
        !initial_state(open_delay, close_delay).open_timer_held,
        !initial_state(open_delay, close_delay).close_timer_held,
{
}

/// The pointer is on the card exactly when it lies within the card's box,
/// edges included: never above, below, left or right of it, and never when
/// there is no card box.
pub proof fn lemma_pointer_on_card_exactly_within_its_box(card: ClientRect, x: int, y: int)
    ensures
        point_in_rect(Some(card), x, y) <==> (card.left <= x && x <= card.right && card.top
            <= y && y <= card.bottom),
        y < card.top || y > card.bottom || x < card.left || x > card.right ==> !point_in_rect(
            Some(card),
            x,
            y,
        ),
        !point_in_rect(None, x, y),
{
}

/// An open card says "open", a closed one "closed".
pub proof fn lemma_data_state_names_the_state(is_open: bool)
    ensures
        data_state_text(is_open) == (if is_open {
            "open"@
        } else {
            "closed"@
        }),
        data_state_text(true) != data_state_text(false),
{
    reveal_strlit("open");
    reveal_strlit("closed");
    assert("open"@.len() != "closed"@.len());
}

/// The name of a side as the slide utilities spell it.
pub open spec fn side_name(side: OverlaySide) -> Seq<char> {
    match side {
        OverlaySide::Top => "top"@,
        OverlaySide::Right => "right"@,
        OverlaySide::Bottom => "bottom"@,
        OverlaySide::Left => "left"@,
    }
}

/// A card slides in from its trigger and back out towards it: from and to the
/// side across from the one it was asked to show on.
pub proof fn lemma_card_slides_from_its_trigger(side: OverlaySide)
    ensures
        slide_class_text(side) == "data-[state=open]:slide-in-from-"@ + side_name(opposite_side(
            side,
        )) + "-2 data-[state=closed]:slide-out-to-"@ + side_name(opposite_side(side)) + "-2"@,
{
    reveal_strlit("data-[state=open]:slide-in-from-");
    reveal_strlit("-2 data-[state=closed]:slide-out-to-");
    reveal_strlit("-2");
    reveal_strlit("top");
    reveal_strlit("right");
    reveal_strlit("bottom");
    reveal_strlit("left");
    reveal_strlit("data-[state=open]:slide-in-from-bottom-2 data-[state=closed]:slide-out-to-bottom-2");
    reveal_strlit("data-[state=open]:slide-in-from-left-2 data-[state=closed]:slide-out-to-left-2");
    reveal_strlit("data-[state=open]:slide-in-from-top-2 data-[state=closed]:slide-out-to-top-2");
    reveal_strlit("data-[state=open]:slide-in-from-right-2 data-[state=closed]:slide-out-to-right-2");
    assert(slide_class_text(side) =~= "data-[state=open]:slide-in-from-"@ + side_name(
        opposite_side(side),
    ) + "-2 data-[state=closed]:slide-out-to-"@ + side_name(opposite_side(side)) + "-2"@);
}

} // verus!

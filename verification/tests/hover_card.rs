use impulse_client_kit::hover_card::{
    card_classes, content_placement, data_state, pointer_within, slide_class, ClientRect,
    HoverCardState,
    HoverEvent, TimerCommand, DEFAULT_CLOSE_DELAY_MS, DEFAULT_OPEN_DELAY_MS,
};
use impulse_client_kit::position::{OverlayAlign, OverlaySide};

fn held_close(s: &mut HoverCardState) {
    s.step(HoverEvent::CloseTimerStarted { held: true });
}

#[test]
fn new_card_uses_default_delays() {
    let s = HoverCardState::new(None, None);
    assert_eq!(s.open_delay, 700);
    assert_eq!(s.close_delay, 300);
    assert_eq!((DEFAULT_OPEN_DELAY_MS, DEFAULT_CLOSE_DELAY_MS), (700, 300));
    assert!(!s.open_timer_held && !s.close_timer_held);
    let s = HoverCardState::new(Some(10), Some(20));
    assert_eq!((s.open_delay, s.close_delay), (10, 20));
}

#[test]
fn entering_the_trigger_opens_after_delay() {
    let mut s = HoverCardState::new(None, None);
    let cmds = s.step(HoverEvent::TriggerEnter);
    assert_eq!(cmds, vec![TimerCommand::StartOpenTimer { delay_ms: 700 }]);
    assert!(s.step(HoverEvent::OpenTimerStarted { held: true }).is_empty());
    assert!(s.open_timer_held);
    assert_eq!(s.step(HoverEvent::OpenTimerElapsed), vec![TimerCommand::SetOpen { open: true }]);
}

#[test]
fn leaving_the_trigger_cancels_open_and_closes_after_delay() {
    let mut s = HoverCardState::new(None, None);
    s.step(HoverEvent::TriggerEnter);
    s.step(HoverEvent::OpenTimerStarted { held: true });
    let cmds = s.step(HoverEvent::TriggerLeave { pointer_on_card: false });
    assert_eq!(
        cmds,
        vec![TimerCommand::ClearOpenTimer, TimerCommand::StartCloseTimer { delay_ms: 300 }]
    );
    assert!(!s.open_timer_held);
    held_close(&mut s);
    assert_eq!(s.step(HoverEvent::CloseTimerElapsed), vec![TimerCommand::SetOpen { open: false }]);
}

#[test]
fn leaving_the_trigger_into_the_card_does_not_close() {
    let mut s = HoverCardState::new(None, None);
    s.step(HoverEvent::TriggerEnter);
    s.step(HoverEvent::OpenTimerStarted { held: true });
    let cmds = s.step(HoverEvent::TriggerLeave { pointer_on_card: true });
    assert_eq!(cmds, vec![TimerCommand::ClearOpenTimer]);
    assert!(!s.close_timer_held);
}

#[test]
fn card_cancels_a_close_the_trigger_started() {
    let mut s = HoverCardState::new(None, None);
    s.step(HoverEvent::TriggerLeave { pointer_on_card: false });
    held_close(&mut s);
    assert_eq!(s.step(HoverEvent::CardEnter), vec![TimerCommand::ClearCloseTimer]);
    assert!(!s.close_timer_held);
    // Nothing more to cancel the second time.
    assert!(s.step(HoverEvent::CardEnter).is_empty());
}

#[test]
fn trigger_cancels_a_close_the_card_started() {
    let mut s = HoverCardState::new(Some(50), Some(60));
    let cmds = s.step(HoverEvent::CardLeave);
    assert_eq!(cmds, vec![TimerCommand::StartCloseTimer { delay_ms: 60 }]);
    held_close(&mut s);
    assert_eq!(
        s.step(HoverEvent::TriggerEnter),
        vec![TimerCommand::ClearCloseTimer, TimerCommand::StartOpenTimer { delay_ms: 50 }]
    );
}

#[test]
fn a_timer_without_handle_is_not_cleared() {
    let mut s = HoverCardState::new(None, None);
    s.step(HoverEvent::TriggerEnter);
    s.step(HoverEvent::OpenTimerStarted { held: false });
    assert_eq!(
        s.step(HoverEvent::CardLeave),
        vec![TimerCommand::StartCloseTimer { delay_ms: 300 }]
    );
}

#[test]
fn cancel_methods_clear_only_held_timers() {
    let mut s = HoverCardState::new(None, None);
    assert!(s.cancel_open().is_empty());
    assert!(s.cancel_close().is_empty());
    s.open_timer_held = true;
    s.close_timer_held = true;
    assert_eq!(s.cancel_open(), vec![TimerCommand::ClearOpenTimer]);
    assert_eq!(s.cancel_close(), vec![TimerCommand::ClearCloseTimer]);
    assert!(!s.open_timer_held && !s.close_timer_held);
    s.close_timer_held = true;
    assert_eq!(
        s.open_after_delay(),
        vec![TimerCommand::ClearCloseTimer, TimerCommand::StartOpenTimer { delay_ms: 700 }]
    );
    s.open_timer_held = true;
    assert_eq!(
        s.close_after_delay(),
        vec![TimerCommand::ClearOpenTimer, TimerCommand::StartCloseTimer { delay_ms: 300 }]
    );
}

#[test]
fn pointer_within_card_box() {
    let r = ClientRect { top: 10, left: 20, right: 120, bottom: 60 };
    assert!(pointer_within(Some(r), 20, 10));
    assert!(pointer_within(Some(r), 120, 60));
    assert!(pointer_within(Some(r), 70, 30));
    assert!(!pointer_within(Some(r), 19, 30));
    assert!(!pointer_within(Some(r), 70, 61));
    assert!(!pointer_within(None, 70, 30));
}

#[test]
fn data_state_names() {
    assert_eq!(data_state(true), "open");
    assert_eq!(data_state(false), "closed");
}

#[test]
fn slide_class_follows_requested_side() {
    assert_eq!(
        slide_class(OverlaySide::Bottom),
        "data-[state=open]:slide-in-from-top-2 data-[state=closed]:slide-out-to-top-2"
    );
    assert_eq!(
        slide_class(OverlaySide::Top),
        "data-[state=open]:slide-in-from-bottom-2 data-[state=closed]:slide-out-to-bottom-2"
    );
    assert_eq!(
        slide_class(OverlaySide::Left),
        "data-[state=open]:slide-in-from-right-2 data-[state=closed]:slide-out-to-right-2"
    );
    assert_eq!(
        slide_class(OverlaySide::Right),
        "data-[state=open]:slide-in-from-left-2 data-[state=closed]:slide-out-to-left-2"
    );
}

#[test]
fn content_placement_defaults() {
    assert_eq!(
        content_placement(None, None, None),
        (OverlayAlign::Center, OverlaySide::Bottom, 4)
    );
    assert_eq!(
        content_placement(Some(OverlayAlign::End), Some(OverlaySide::Left), Some(12)),
        (OverlayAlign::End, OverlaySide::Left, 12)
    );
}

#[test]
fn repeated_close_clears_the_first_close() {
    let mut s = HoverCardState::new(None, None);
    s.step(HoverEvent::CardLeave);
    held_close(&mut s);
    assert_eq!(
        s.step(HoverEvent::TriggerLeave { pointer_on_card: false }),
        vec![TimerCommand::ClearCloseTimer, TimerCommand::StartCloseTimer { delay_ms: 300 }]
    );
    held_close(&mut s);
    assert_eq!(s.step(HoverEvent::CardEnter), vec![TimerCommand::ClearCloseTimer]);
    assert!(!s.close_timer_held);
}

#[test]
fn repeated_open_clears_the_first_open() {
    let mut s = HoverCardState::new(None, None);
    s.step(HoverEvent::TriggerEnter);
    s.step(HoverEvent::OpenTimerStarted { held: true });
    assert_eq!(
        s.step(HoverEvent::TriggerEnter),
        vec![TimerCommand::ClearOpenTimer, TimerCommand::StartOpenTimer { delay_ms: 700 }]
    );
    s.step(HoverEvent::OpenTimerStarted { held: true });
    assert_eq!(s.cancel_open(), vec![TimerCommand::ClearOpenTimer]);
    assert!(!s.open_timer_held);
}

#[test]
fn starting_both_kinds_clears_both() {
    let mut s = HoverCardState::new(None, None);
    s.open_timer_held = true;
    s.close_timer_held = true;
    assert_eq!(
        s.step(HoverEvent::CardLeave),
        vec![
            TimerCommand::ClearOpenTimer,
            TimerCommand::ClearCloseTimer,
            TimerCommand::StartCloseTimer { delay_ms: 300 }
        ]
    );
    assert!(!s.open_timer_held && !s.close_timer_held);
}

#[test]
fn card_classes_hide_a_closed_card() {
    let classes = card_classes(OverlaySide::Top, "my-card");
    assert_eq!(classes.len(), 24);
    assert!(classes.contains(&"data-[state=closed]:invisible"));
    assert!(classes.contains(&"data-[state=closed]:pointer-events-none"));
    assert_eq!(classes[22], slide_class(OverlaySide::Top));
    assert_eq!(classes[23], "my-card");
    assert_eq!(classes[0], "bg-popover");
}

//! The decisions of a hover card: when its open and close timers start and
//! stop, whether a pointer is over the card, and how the card is presented.
//!
//! The trigger and the card are one hover region, so a single pair of timers
//! serves both: a close scheduled by either half can be cancelled by the other,
//! and a timer is only started once the one it replaces has been cleared.
//! The host runs the timers. It feeds each pointer or timer event to
//! `HoverCardState::step` and carries out the `TimerCommand`s that come back;
//! after starting a timer it reports with `OpenTimerStarted` or
//! `CloseTimerStarted` whether it got a handle to that timer.
use vstd::prelude::*;
use crate::position::{OverlayAlign, OverlaySide};

verus! {

/// Delay before a hovered card opens, unless one is given.
pub const DEFAULT_OPEN_DELAY_MS: u32 = 700;

/// Delay before a left card closes, unless one is given.
pub const DEFAULT_CLOSE_DELAY_MS: u32 = 300;

/// Gap between trigger and card, in pixels, unless one is given.
pub const DEFAULT_SIDE_OFFSET: i32 = 4;

/// What the host is asked to do.
#[derive(Clone, Copy, PartialEq, Eq, Debug, Structural)]
pub enum TimerCommand {
    /// Clear the held open timer and drop its handle.
    ClearOpenTimer,
    /// Clear the held close timer and drop its handle.
    ClearCloseTimer,
    /// Start a timer that, on elapsing, reports `OpenTimerElapsed`; keep its
    /// handle as the open timer.
    StartOpenTimer { delay_ms: u32 },
    /// Start a timer that, on elapsing, reports `CloseTimerElapsed`; keep its
    /// handle as the close timer.
    StartCloseTimer { delay_ms: u32 },
    /// Show (`true`) or hide the card.
    SetOpen { open: bool },
}

/// What happened to the hover card.
#[derive(Clone, Copy, PartialEq, Eq, Debug, Structural)]
pub enum HoverEvent {
    /// The pointer entered the trigger.
    TriggerEnter,
    /// The pointer left the trigger; `pointer_on_card` says whether it is now
    /// within the card's box (see `pointer_within`).
    TriggerLeave { pointer_on_card: bool },
    /// The pointer entered the card.
    CardEnter,
    /// The pointer left the card.
    CardLeave,
    /// The open timer asked for was started; `held` says whether a handle to it
    /// came back.
    OpenTimerStarted { held: bool },
    /// The close timer asked for was started; `held` says whether a handle to
    /// it came back.
    CloseTimerStarted { held: bool },
    /// An open timer elapsed.
    OpenTimerElapsed,
    /// A close timer elapsed.
    CloseTimerElapsed,
}

/// The timers of one hover card: their delays and which handles are held.
#[derive(Clone, Copy, PartialEq, Eq, Debug, Structural)]
pub struct HoverCardState {
    pub open_delay: u32,
    pub close_delay: u32,
    /// A handle to an open timer is kept (it may already have elapsed).
    pub open_timer_held: bool,
    /// A handle to a close timer is kept (it may already have elapsed).
    pub close_timer_held: bool,
}

/// A box on screen, in layout units.
#[derive(Clone, Copy, PartialEq, Eq, Debug, Structural)]
pub struct ClientRect {
    pub top: i64,
    pub left: i64,
    pub right: i64,
    pub bottom: i64,
}

// ---------------------------------------------------------------------------
// The model
// ---------------------------------------------------------------------------

/// A fresh card's timers: the given delays (700 ms to open and 300 ms to close
/// by default), no handle held.
pub open spec fn initial_state(open_delay: Option<u32>, close_delay: Option<u32>) -> HoverCardState {
    HoverCardState {
        open_delay: match open_delay {
            Some(d) => d,
            None => DEFAULT_OPEN_DELAY_MS,
        },
        close_delay: match close_delay {
            Some(d) => d,
            None => DEFAULT_CLOSE_DELAY_MS,
        },
        open_timer_held: false,
        close_timer_held: false,
    }
}

/// `s` with its open handle dropped.
pub open spec fn without_open_timer(s: HoverCardState) -> HoverCardState {
    HoverCardState { open_timer_held: false, ..s }
}

/// `s` with its close handle dropped.
pub open spec fn without_close_timer(s: HoverCardState) -> HoverCardState {
    HoverCardState { close_timer_held: false, ..s }
}

/// Cancelling the open timer clears it if a handle is held, and asks nothing
/// otherwise.
pub open spec fn cancel_open_commands(s: HoverCardState) -> Seq<TimerCommand> {
    if s.open_timer_held {
        seq![TimerCommand::ClearOpenTimer]
    } else {
        seq![]
    }
}

/// Cancelling the close timer clears it if a handle is held, and asks nothing
/// otherwise.
pub open spec fn cancel_close_commands(s: HoverCardState) -> Seq<TimerCommand> {
    if s.close_timer_held {
        seq![TimerCommand::ClearCloseTimer]
    } else {
        seq![]
    }
}

/// `s` with both handles dropped.
pub open spec fn without_timers(s: HoverCardState) -> HoverCardState {
    without_open_timer(without_close_timer(s))
}

/// Opening after the delay first cancels a pending close, and the open timer
/// it replaces: the card keeps one pair of timers, never two of a kind.
pub open spec fn open_after_delay_commands(s: HoverCardState) -> Seq<TimerCommand> {
    cancel_close_commands(s) + cancel_open_commands(s).push(
        TimerCommand::StartOpenTimer { delay_ms: s.open_delay },
    )
}

/// Closing after the delay first cancels a pending open, and the close timer
/// it replaces.
pub open spec fn close_after_delay_commands(s: HoverCardState) -> Seq<TimerCommand> {
    cancel_open_commands(s) + cancel_close_commands(s).push(
        TimerCommand::StartCloseTimer { delay_ms: s.close_delay },
    )
}

/// The timers after `event`.
pub open spec fn step_state(s: HoverCardState, event: HoverEvent) -> HoverCardState {
    match event {
        HoverEvent::TriggerEnter => without_timers(s),
        HoverEvent::TriggerLeave { pointer_on_card } => if pointer_on_card {
            without_open_timer(s)
        } else {
            without_timers(s)
        },
        HoverEvent::CardEnter => without_close_timer(s),
        HoverEvent::CardLeave => without_timers(s),
        HoverEvent::OpenTimerStarted { held } => HoverCardState { open_timer_held: held, ..s },
        HoverEvent::CloseTimerStarted { held } => HoverCardState { close_timer_held: held, ..s },
        HoverEvent::OpenTimerElapsed => s,
        HoverEvent::CloseTimerElapsed => s,
    }
}

/// What the host is asked to do on `event`.
///
/// Entering the trigger opens after the delay; leaving it cancels the open
/// and, unless the pointer went onto the card, closes after the delay.
/// Entering the card cancels a close; leaving it closes after the delay.
/// Elapsed timers show or hide the card.
pub open spec fn step_commands(s: HoverCardState, event: HoverEvent) -> Seq<TimerCommand> {
    match event {
        HoverEvent::TriggerEnter => open_after_delay_commands(s),
        HoverEvent::TriggerLeave { pointer_on_card } => if pointer_on_card {
            cancel_open_commands(s)
        } else {
            close_after_delay_commands(s)
        },
        HoverEvent::CardEnter => cancel_close_commands(s),
        HoverEvent::CardLeave => close_after_delay_commands(s),
        HoverEvent::OpenTimerStarted { .. } => seq![],
        HoverEvent::CloseTimerStarted { .. } => seq![],
        HoverEvent::OpenTimerElapsed => seq![TimerCommand::SetOpen { open: true }],
        HoverEvent::CloseTimerElapsed => seq![TimerCommand::SetOpen { open: false }],
    }
}

/// Whether the point `(x, y)` lies in the box `card` (edges included); false
/// when there is no card box.
pub open spec fn point_in_rect(card: Option<ClientRect>, x: int, y: int) -> bool {
    match card {
        Some(r) => r.left <= x <= r.right && r.top <= y <= r.bottom,
        None => false,
    }
}

/// The `data-state` value of a card: "open" or "closed".
pub open spec fn data_state_text(is_open: bool) -> Seq<char> {
    if is_open {
        "open"@
    } else {
        "closed"@
    }
}

/// The entrance and exit animation classes for a card on `side`: it slides
/// in from the trigger and back out towards it.
pub open spec fn slide_class_text(side: OverlaySide) -> Seq<char> {
    match side {
        OverlaySide::Top => "data-[state=open]:slide-in-from-bottom-2 data-[state=closed]:slide-out-to-bottom-2"@,
        OverlaySide::Right => "data-[state=open]:slide-in-from-left-2 data-[state=closed]:slide-out-to-left-2"@,
        OverlaySide::Bottom => "data-[state=open]:slide-in-from-top-2 data-[state=closed]:slide-out-to-top-2"@,
        OverlaySide::Left => "data-[state=open]:slide-in-from-right-2 data-[state=closed]:slide-out-to-right-2"@,
    }
}

/// The classes of a card, one by one: its look, its fade and zoom, what keeps
/// a closed card out of sight, out of the tab order and out of pointer reach
/// while it stays mounted (`invisible` hides it from the keyboard too, where
/// `opacity-0` and a collapsed size alone would not), the slide animation for
/// the requested side, and last the caller's own classes.
pub open spec fn card_class_list(requested_side: OverlaySide, extra: Seq<char>) -> Seq<Seq<char>> {
    seq![
        "bg-popover"@,
        "text-popover-foreground"@,
        "fixed"@,
        "z-50"@,
        "w-64"@,
        "rounded-md"@,
        "border"@,
        "p-4"@,
        "shadow-md"@,
        "outline-hidden"@,
        "data-[state=open]:animate-in"@,
        "data-[state=closed]:animate-out"@,
        "data-[state=closed]:fade-out-0"@,
        "data-[state=open]:fade-in-0"@,
        "data-[state=closed]:zoom-out-95"@,
        "data-[state=open]:zoom-in-95"@,
        "data-[state=closed]:invisible"@,
        "data-[state=closed]:opacity-0"@,
        "data-[state=closed]:pointer-events-none"@,
        "data-[state=closed]:h-0"@,
        "data-[state=closed]:w-0"@,
        "data-[state=closed]:overflow-hidden"@,
        slide_class_text(requested_side),
        extra,
    ]
}

/// The text of each class in `classes`.
pub open spec fn class_texts<'a>(classes: Seq<&'a str>) -> Seq<Seq<char>> {
    classes.map_values(|c: &'a str| c@)
}

// ---------------------------------------------------------------------------
// The code
// ---------------------------------------------------------------------------

impl HoverCardState {
    /// The timers of a new card, with the given delays or the defaults.
    pub fn new(open_delay: Option<u32>, close_delay: Option<u32>) -> (s: Self)
        ensures
            s == initial_state(open_delay, close_delay),
    {
        let open_delay = match open_delay {
            Some(d) => d,
            None => DEFAULT_OPEN_DELAY_MS,
        };
        let close_delay = match close_delay {
            Some(d) => d,
            None => DEFAULT_CLOSE_DELAY_MS,
        };
        HoverCardState { open_delay, close_delay, open_timer_held: false, close_timer_held: false }
    }

    /// Clears the open timer, if a handle to one is held.
    pub fn cancel_open(&mut self) -> (cmds: Vec<TimerCommand>)
        ensures
            cmds@ == cancel_open_commands(*old(self)),
            *final(self) == without_open_timer(*old(self)),
    {
        let mut cmds: Vec<TimerCommand> = Vec::new();
        if self.open_timer_held {
            cmds.push(TimerCommand::ClearOpenTimer);
            self.open_timer_held = false;
        }
        cmds
    }

    /// Clears the close timer, if a handle to one is held.
    pub fn cancel_close(&mut self) -> (cmds: Vec<TimerCommand>)
        ensures
            cmds@ == cancel_close_commands(*old(self)),
            *final(self) == without_close_timer(*old(self)),
    {
        let mut cmds: Vec<TimerCommand> = Vec::new();
        if self.close_timer_held {
            cmds.push(TimerCommand::ClearCloseTimer);
            self.close_timer_held = false;
        }
        cmds
    }

    /// Cancels a pending close and the open timer being replaced, then starts
    /// the open timer.
    pub fn open_after_delay(&mut self) -> (cmds: Vec<TimerCommand>)
        ensures
            cmds@ == open_after_delay_commands(*old(self)),
            *final(self) == without_timers(*old(self)),
    {
        let mut cmds = self.cancel_close();
        let mut replaced = self.cancel_open();
        cmds.append(&mut replaced);
        cmds.push(TimerCommand::StartOpenTimer { delay_ms: self.open_delay });
        cmds
    }

    /// Cancels a pending open and the close timer being replaced, then starts
    /// the close timer.
    pub fn close_after_delay(&mut self) -> (cmds: Vec<TimerCommand>)
        ensures
            cmds@ == close_after_delay_commands(*old(self)),
            *final(self) == without_timers(*old(self)),
    {
        let mut cmds = self.cancel_open();
        let mut replaced = self.cancel_close();
        cmds.append(&mut replaced);
        cmds.push(TimerCommand::StartCloseTimer { delay_ms: self.close_delay });
        cmds
    }

    /// Takes in one event and says what to do about it.
    ///
    /// Leaving the trigger *into the card* is not leaving: the card can end up
    /// over its own trigger, and there the pointer never moves, so whether the
    /// card is under the pointer is asked of the geometry.
    pub fn step(&mut self, event: HoverEvent) -> (cmds: Vec<TimerCommand>)
        ensures
            cmds@ == step_commands(*old(self), event),
            *final(self) == step_state(*old(self), event),
    {
        match event {
            HoverEvent::TriggerEnter => self.open_after_delay(),
            HoverEvent::TriggerLeave { pointer_on_card } => {
                let cmds = self.cancel_open();
                if pointer_on_card {
                    cmds
                } else {
                    let more = self.close_after_delay();
                    let mut all = cmds;
                    let mut rest = more;
                    all.append(&mut rest);
                    all
                }
            },
            HoverEvent::CardEnter => self.cancel_close(),
            HoverEvent::CardLeave => self.close_after_delay(),
            HoverEvent::OpenTimerStarted { held } => {
                self.open_timer_held = held;
                Vec::new()
            },
            HoverEvent::CloseTimerStarted { held } => {
                self.close_timer_held = held;
                Vec::new()
            },
            HoverEvent::OpenTimerElapsed => {
                let mut cmds: Vec<TimerCommand> = Vec::new();
                cmds.push(TimerCommand::SetOpen { open: true });
                cmds
            },
            HoverEvent::CloseTimerElapsed => {
                let mut cmds: Vec<TimerCommand> = Vec::new();
                cmds.push(TimerCommand::SetOpen { open: false });
                cmds
            },
        }
    }
}

/// Whether the pointer at `(x, y)` is inside the card's box.
///
/// Asked of the geometry rather than of enter/leave events, because the case
/// that needs answering is a card that appeared *under* a cursor that never
/// moved, and a pointer that doesn't move raises no events to count. No box
/// (the card is not mounted) means no.
pub fn pointer_within(card: Option<ClientRect>, x: i64, y: i64) -> (inside: bool)
    ensures
        inside == point_in_rect(card, x as int, y as int),
{
    match card {
        Some(r) => x >= r.left && x <= r.right && y >= r.top && y <= r.bottom,
        None => false,
    }
}

/// The `data-state` attribute of a card.
pub fn data_state(is_open: bool) -> (text: &'static str)
    ensures
        text@ == data_state_text(is_open),
{
    if is_open {
        "open"
    } else {
        "closed"
    }
}

/// The slide animation classes of a card on the requested `side`.
///
/// They follow the side asked for, not the side the card may have been
/// flipped to.
pub fn slide_class(side: OverlaySide) -> (classes: &'static str)
    ensures
        classes@ == slide_class_text(side),
{
    match side {
        OverlaySide::Top => "data-[state=open]:slide-in-from-bottom-2 data-[state=closed]:slide-out-to-bottom-2",
        OverlaySide::Right => "data-[state=open]:slide-in-from-left-2 data-[state=closed]:slide-out-to-left-2",
        OverlaySide::Bottom => "data-[state=open]:slide-in-from-top-2 data-[state=closed]:slide-out-to-top-2",
        OverlaySide::Left => "data-[state=open]:slide-in-from-right-2 data-[state=closed]:slide-out-to-right-2",
    }
}

/// The placement of a card: the given alignment, side and offset, or centred
/// below its trigger, 4 px away.
pub fn content_placement(
    align: Option<OverlayAlign>,
    side: Option<OverlaySide>,
    side_offset: Option<i32>,
) -> (placement: (OverlayAlign, OverlaySide, i32))
    ensures
        placement.0 == (match align {
            Some(a) => a,
            None => OverlayAlign::Center,
        }),
        placement.1 == (match side {
            Some(s) => s,
            None => OverlaySide::Bottom,
        }),
        placement.2 == (match side_offset {
            Some(o) => o,
            None => DEFAULT_SIDE_OFFSET,
        }),
{
    let align = match align {
        Some(a) => a,
        None => OverlayAlign::Center,
    };
    let side = match side {
        Some(s) => s,
        None => OverlaySide::Bottom,
    };
    let side_offset = match side_offset {
        Some(o) => o,
        None => DEFAULT_SIDE_OFFSET,
    };
    (align, side, side_offset)
}

/// The classes of a card shown on the requested `side`, followed by the
/// caller's `class` (see `card_class_list`).
///
/// The slide animation follows the side asked for: only the card's position
/// flips when that side has no room.
pub fn card_classes<'a>(requested_side: OverlaySide, class: &'a str) -> (classes: Vec<&'a str>)
    ensures
        class_texts(classes@) == card_class_list(requested_side, class@),
{
    let classes: Vec<&'a str> = vec![
        "bg-popover",
        "text-popover-foreground",
        "fixed",
        "z-50",
        "w-64",
        "rounded-md",
        "border",
        "p-4",
        "shadow-md",
        "outline-hidden",
        "data-[state=open]:animate-in",
        "data-[state=closed]:animate-out",
        "data-[state=closed]:fade-out-0",
        "data-[state=open]:fade-in-0",
        "data-[state=closed]:zoom-out-95",
        "data-[state=open]:zoom-in-95",
        "data-[state=closed]:invisible",
        "data-[state=closed]:opacity-0",
        "data-[state=closed]:pointer-events-none",
        "data-[state=closed]:h-0",
        "data-[state=closed]:w-0",
        "data-[state=closed]:overflow-hidden",
        slide_class(requested_side),
        class,
    ];
    assert(class_texts(classes@) =~= card_class_list(requested_side, class@));
    classes
}

} // verus!

# impulse_client_kit

Placement and timing rules of a hover card, verified with Verus.

- `src/position.rs`: which side of its trigger an overlay goes on
  (`fitting_side`), where it is put (`calculate_position`) and how it is kept
  inside the viewport (`clamp_to_viewport`). Lengths are fixed-point layout
  units, 64 to the CSS pixel; positions come back in half units, 128 to the
  pixel, so a centred overlay sits exactly in the middle.
- `src/placement_laws.rs`: what placement promises: a side that fits is kept,
  a side that does not is flipped away from, the overlay stays in the padded
  viewport, a fitting overlay never covers its trigger and a centred one shares
  its trigger's middle.
- `src/hover_card.rs`: the open/close timers as a state machine
  (`HoverCardState::step`), the pointer-on-card test, and the card's defaults
  and classes (`card_classes`).
- `src/hover_laws.rs`: what the timers promise: trigger and card act as one
  hover region with one pair of timers, leaving the trigger into the card is
  not leaving, only held timers are cleared, a closed card is hidden from
  keyboard and pointer, and only the position flips.
- `app/`: the Leptos components, which measure the page, run the timers and
  write styles, and ask the library for every decision.

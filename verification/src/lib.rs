//! Overlay placement and hover-card timing, with their contracts.
use vstd::prelude::*;

pub mod position;
pub mod placement_laws;
pub mod hover_card;
pub mod hover_laws;

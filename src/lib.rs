//! A timer-driven notification center: a FIFO of pending messages, one message
//! on screen at a time, a pause between messages and a slide-in animation.
//!
//! Time is counted in whole milliseconds and the slide offset in millipixels
//! (thousandths of a pixel), so every step of the state machine is exact
//! integer arithmetic.
//!
//! Beside it stand the small state types of two widgets: an expandable
//! selection list and a piece of hoverable, clickable text.

mod laws;
mod notification;
mod widgets;

pub use notification::{
    countdown, slide, CenterModel, Notifications, RenderState, DISPLAY_MS, INITIAL_OFFSET_MPX, PAUSE_MS,
    SLIDE_MPX_PER_MS, SURFACE_MARGIN_MPX, SURFACE_WIDTH_MPX,
};
pub use laws::{
    apply, enqueued, lemma_apply_wf, lemma_fifo_exactly_once, lemma_run_order, lemma_run_wf,
    lemma_slide_monotone, lemma_zero_tick, promoted, run, shown, Event,
};
pub use widgets::{last_clicked, selected_entry, ExpansionList, InteractiveTextState};

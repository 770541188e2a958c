use std::collections::VecDeque;
use vstd::prelude::*;

verus! {

/// How long a message stays on screen, in milliseconds.
pub const DISPLAY_MS: u64 = 4000;

/// The pause between two messages, in milliseconds.
pub const PAUSE_MS: u64 = 500;

/// Width of the notification surface, in millipixels.
pub const SURFACE_WIDTH_MPX: u64 = 300000;

/// Distance between the surface and the screen edge at rest, in millipixels.
pub const SURFACE_MARGIN_MPX: u64 = 180000;

/// Offset at which a new message starts its slide-in, in millipixels.
pub const INITIAL_OFFSET_MPX: u64 = SURFACE_WIDTH_MPX + SURFACE_MARGIN_MPX;

/// Slide speed: three surface widths per second, in millipixels per millisecond.
pub const SLIDE_MPX_PER_MS: u64 = 900;

/// The abstract state of a notification center.
pub struct CenterModel {
    /// Messages waiting, front first.
    pub queued: Seq<String>,
    /// The message on screen, if any.
    pub displaying: Option<String>,
    /// Time left in the current phase (display or pause).
    pub remaining_ms: nat,
    /// Horizontal distance of the message from its resting place.
    pub offset: nat,
}

/// What the presentation layer draws this frame.
#[derive(Debug, Clone, PartialEq, Eq)]
pub enum RenderState {
    Idle,
    Showing { message: String, slide_offset: u64, remaining_ms: u64 },
}

impl CenterModel {
    /// The state's invariant: a message on screen has time left, and the
    /// timer and the offset never exceed the values they are reset to.
    pub open spec fn wf(self) -> bool {
        &&& self.displaying is Some ==> self.remaining_ms > 0
        &&& self.remaining_ms <= DISPLAY_MS
        &&& self.offset <= INITIAL_OFFSET_MPX
    }

    /// A center with no message queued or shown and an expired timer.
    pub open spec fn empty() -> CenterModel {
        CenterModel { queued: Seq::empty(), displaying: None, remaining_ms: 0, offset: 0 }
    }

    /// The state after `message` is appended to the queue.
    pub open spec fn enqueue(self, message: String) -> CenterModel {
        CenterModel { queued: self.queued.push(message), ..self }
    }

    /// The next message is due: nothing shown, timer expired, queue non-empty.
    pub open spec fn is_promoting(self) -> bool {
        &&& self.displaying is None
        &&& self.remaining_ms == 0
        &&& self.queued.len() > 0
    }

    /// The state after one tick of `delta` milliseconds: exactly one phase
    /// is evaluated, so a long tick makes at most one transition.
    pub open spec fn tick(self, delta: nat) -> CenterModel {
        if self.displaying is Some {
            if self.remaining_ms <= delta {
                CenterModel {
                    displaying: None,
                    remaining_ms: PAUSE_MS as nat,
                    offset: slide(self.offset, delta),
                    ..self
                }
            } else {
                CenterModel {
                    remaining_ms: (self.remaining_ms - delta) as nat,
                    offset: slide(self.offset, delta),
                    ..self
                }
            }
        } else if self.remaining_ms > 0 {
            CenterModel { remaining_ms: countdown(self.remaining_ms, delta), ..self }
        } else if self.queued.len() > 0 {
            CenterModel {
                queued: self.queued.drop_first(),
                displaying: Some(self.queued[0]),
                remaining_ms: DISPLAY_MS as nat,
                offset: INITIAL_OFFSET_MPX as nat,
            }
        } else {
            self
        }
    }

    /// What a frame shows in this state.
    pub open spec fn render(self) -> RenderState {
        match self.displaying {
            Some(message) => RenderState::Showing {
                message,
                slide_offset: self.offset as u64,
                remaining_ms: self.remaining_ms as u64,
            },
            None => RenderState::Idle,
        }
    }
}

/// A timer after `delta` milliseconds: it stops at zero.
pub open spec fn countdown(remaining: nat, delta: nat) -> nat {
    if remaining <= delta {
        0
    } else {
        (remaining - delta) as nat
    }
}

/// A slide offset after `delta` milliseconds: it moves toward zero at
/// `SLIDE_MPX_PER_MS` and stops there.
pub open spec fn slide(offset: nat, delta: nat) -> nat {
    if offset <= SLIDE_MPX_PER_MS * delta {
        0
    } else {
        (offset - SLIDE_MPX_PER_MS * delta) as nat
    }
}

/// A queue of text notifications shown one at a time, each sliding in from
/// the right, with a short pause between two of them.
pub struct Notifications {
    queued: VecDeque<String>,
    displaying: Option<String>,
    remaining_ms: u64,
    offset: u64,
}

impl View for Notifications {
    type V = CenterModel;

    closed spec fn view(&self) -> CenterModel {
        CenterModel {
            queued: self.queued@,
            displaying: self.displaying,
            remaining_ms: self.remaining_ms as nat,
            offset: self.offset as nat,
        }
    }
}

/// One countdown step on a machine integer.
fn countdown_step(remaining: u64, delta: u64) -> (r: u64)
    ensures
        r == countdown(remaining as nat, delta as nat),
{
    if remaining <= delta {
        0
    } else {
        remaining - delta
    }
}

/// One slide step on a machine integer; the bound on `offset` keeps the
/// product with `delta` in range where it is computed.
fn slide_step(offset: u64, delta: u64) -> (r: u64)
    requires
        offset <= INITIAL_OFFSET_MPX,
    ensures
        r == slide(offset as nat, delta as nat),
{
    if offset <= delta {
        assert(offset <= SLIDE_MPX_PER_MS * delta);
        0
    } else {
        let step: u64 = SLIDE_MPX_PER_MS * delta;
        if offset <= step {
            0
        } else {
            offset - step
        }
    }
}

impl Notifications {
    /// An empty center: nothing queued, nothing shown, timer expired.
    pub fn new() -> (r: Notifications)
        ensures
            r@ == CenterModel::empty(),
            r@.wf(),
    {
        Notifications { queued: VecDeque::new(), displaying: None, remaining_ms: 0, offset: 0 }
    }

    /// Appends a message to the back of the queue.
    pub fn add_notification(&mut self, notif_text: String)
        requires
            old(self)@.wf(),
        ensures
            final(self)@ == old(self)@.enqueue(notif_text),
            final(self)@.wf(),
    {
        self.queued.push_back(notif_text);
    }

    /// What the presentation layer should draw now.
    pub fn render_state(&self) -> (r: RenderState)
        ensures
            r == self@.render(),
    {
        match &self.displaying {
            Some(message) => RenderState::Showing {
                message: message.clone(),
                slide_offset: self.offset,
                remaining_ms: self.remaining_ms,
            },
            None => RenderState::Idle,
        }
    }

    /// Time left in the current phase (display or pause), in milliseconds.
    pub fn remaining_ms(&self) -> (r: u64)
        ensures
            r == self@.remaining_ms,
    {
        self.remaining_ms
    }

    /// Number of messages waiting to be shown.
    pub fn queued_len(&self) -> (r: usize)
        ensures
            r == self@.queued.len(),
    {
        self.queued.len()
    }

    /// Advances the center by `delta_ms` milliseconds and returns what to draw.
    pub fn tick(&mut self, delta_ms: u64) -> (r: RenderState)
        requires
            old(self)@.wf(),
        ensures
            final(self)@ == old(self)@.tick(delta_ms as nat),
            final(self)@.wf(),
            r == final(self)@.render(),
    {
        if self.displaying.is_some() {
            self.remaining_ms = countdown_step(self.remaining_ms, delta_ms);
            self.offset = slide_step(self.offset, delta_ms);
            if self.remaining_ms == 0 {
                self.displaying = None;
                self.remaining_ms = PAUSE_MS;
            }
        } else if self.remaining_ms > 0 {
            self.remaining_ms = countdown_step(self.remaining_ms, delta_ms);
        } else if self.queued.len() > 0 {
            self.remaining_ms = DISPLAY_MS;
            self.displaying = self.queued.pop_front();
            self.offset = INITIAL_OFFSET_MPX;
        }
        self.render_state()
    }
}

} // verus!

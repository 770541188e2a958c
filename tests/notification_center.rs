use ui_showcase::{
    Notifications, RenderState, DISPLAY_MS, INITIAL_OFFSET_MPX, PAUSE_MS, SLIDE_MPX_PER_MS,
};

fn showing(message: &str, slide_offset: u64, remaining_ms: u64) -> RenderState {
    RenderState::Showing { message: String::from(message), slide_offset, remaining_ms }
}

fn shown_message(r: &RenderState) -> Option<String> {
    match r {
        RenderState::Showing { message, .. } => Some(message.clone()),
        RenderState::Idle => None,
    }
}

#[test]
fn constants_match_the_design() {
    assert_eq!(DISPLAY_MS, 4000);
    assert_eq!(PAUSE_MS, 500);
    assert_eq!(INITIAL_OFFSET_MPX, 480_000);
    assert_eq!(SLIDE_MPX_PER_MS, 900);
}

#[test]
fn empty_center_is_idle() {
    let c = Notifications::new();
    assert_eq!(c.render_state(), RenderState::Idle);
    assert_eq!(c.queued_len(), 0);
    assert_eq!(c.remaining_ms(), 0);
}

#[test]
fn empty_center_stays_idle_on_ticks() {
    let mut c = Notifications::new();
    assert_eq!(c.tick(0), RenderState::Idle);
    assert_eq!(c.tick(10_000), RenderState::Idle);
    assert_eq!(c.remaining_ms(), 0);
}

#[test]
fn render_state_is_idempotent() {
    let mut c = Notifications::new();
    c.add_notification(String::from("A"));
    c.tick(0);
    c.tick(100);
    let first = c.render_state();
    let second = c.render_state();
    assert_eq!(first, second);
    assert_eq!(c.render_state(), c.render_state());
}

#[test]
fn enqueue_then_zero_tick_promotes() {
    let mut c = Notifications::new();
    c.add_notification(String::from("A"));
    assert_eq!(c.render_state(), RenderState::Idle);
    let r = c.tick(0);
    assert_eq!(r, showing("A", INITIAL_OFFSET_MPX, DISPLAY_MS));
    assert_eq!(c.render_state(), r);
    assert_eq!(c.queued_len(), 0);
}

#[test]
fn full_display_duration_retires_message() {
    let mut c = Notifications::new();
    c.add_notification(String::from("A"));
    c.tick(0);
    let r = c.tick(4000);
    assert_eq!(r, RenderState::Idle);
    assert_eq!(c.remaining_ms(), 500);
}

#[test]
fn second_message_follows_display_and_pause() {
    let mut c = Notifications::new();
    c.add_notification(String::from("A"));
    c.add_notification(String::from("B"));
    assert_eq!(shown_message(&c.tick(0)).as_deref(), Some("A"));
    assert_eq!(c.tick(4000), RenderState::Idle);
    assert_eq!(c.tick(500), RenderState::Idle);
    assert_eq!(c.remaining_ms(), 0);
    let r = c.tick(16);
    assert_eq!(r, showing("B", INITIAL_OFFSET_MPX, DISPLAY_MS));
    assert_eq!(c.queued_len(), 0);
}

#[test]
fn slide_offset_never_grows_while_displaying() {
    let mut c = Notifications::new();
    c.add_notification(String::from("A"));
    let mut prev = match c.tick(0) {
        RenderState::Showing { slide_offset, .. } => slide_offset,
        RenderState::Idle => panic!("message expected"),
    };
    let deltas: [u64; 8] = [16, 0, 33, 100, 250, 7, 400, 1000];
    for d in deltas {
        match c.tick(d) {
            RenderState::Showing { slide_offset, .. } => {
                assert!(slide_offset <= prev);
                prev = slide_offset;
            }
            RenderState::Idle => panic!("message expected"),
        }
    }
    assert_eq!(prev, 0);
}

#[test]
fn slide_offset_exact_values() {
    let mut c = Notifications::new();
    c.add_notification(String::from("A"));
    c.tick(0);
    assert_eq!(c.tick(16), showing("A", 480_000 - 16 * 900, 3984));
    assert_eq!(c.tick(100), showing("A", 480_000 - 116 * 900, 3884));
    // 534 ms in total would pass zero: the offset stops there.
    assert_eq!(c.tick(418), showing("A", 0, 3466));
    assert_eq!(c.tick(1), showing("A", 0, 3465));
}

#[test]
fn enqueue_does_not_interrupt_current_message() {
    let mut c = Notifications::new();
    c.add_notification(String::from("A"));
    c.tick(0);
    c.tick(1000);
    c.add_notification(String::from("B"));
    assert_eq!(c.queued_len(), 1);
    assert_eq!(c.render_state(), showing("A", 0, 3000));
    assert_eq!(c.remaining_ms(), 3000);
}

#[test]
fn zero_tick_changes_nothing_while_displaying() {
    let mut c = Notifications::new();
    c.add_notification(String::from("A"));
    c.add_notification(String::from("B"));
    c.tick(0);
    c.tick(10);
    let before = c.render_state();
    assert_eq!(c.tick(0), before);
    assert_eq!(c.queued_len(), 1);
    assert_eq!(c.remaining_ms(), 3990);
}

#[test]
fn zero_tick_changes_nothing_while_pausing() {
    let mut c = Notifications::new();
    c.add_notification(String::from("A"));
    c.add_notification(String::from("B"));
    c.tick(0);
    c.tick(4000);
    c.tick(200);
    assert_eq!(c.tick(0), RenderState::Idle);
    assert_eq!(c.remaining_ms(), 300);
    assert_eq!(c.queued_len(), 1);
}

#[test]
fn long_tick_makes_one_transition() {
    let mut c = Notifications::new();
    c.add_notification(String::from("A"));
    c.add_notification(String::from("B"));
    c.tick(0);
    // Far past display and pause: the message retires, the pause starts.
    assert_eq!(c.tick(60_000), RenderState::Idle);
    assert_eq!(c.remaining_ms(), PAUSE_MS);
    // The pause ends, but B is not promoted in the same tick.
    assert_eq!(c.tick(60_000), RenderState::Idle);
    assert_eq!(c.remaining_ms(), 0);
    assert_eq!(c.queued_len(), 1);
    assert_eq!(shown_message(&c.tick(0)).as_deref(), Some("B"));
}

#[test]
fn message_retires_just_after_display_time() {
    let mut c = Notifications::new();
    c.add_notification(String::from("A"));
    c.tick(0);
    assert_eq!(c.tick(3999), showing("A", 0, 1));
    assert_eq!(c.tick(1), RenderState::Idle);
    assert_eq!(c.remaining_ms(), PAUSE_MS);
}

#[test]
fn messages_shown_in_fifo_order_once_each() {
    let mut c = Notifications::new();
    let names = ["first", "second", "", "second", "last"];
    for n in names {
        c.add_notification(String::from(n));
    }
    let mut seen: Vec<String> = Vec::new();
    let mut prev: Option<String> = None;
    for _ in 0..600 {
        let now = shown_message(&c.tick(50));
        if now.is_some() && prev.is_none() {
            seen.push(now.clone().unwrap());
        }
        prev = now;
    }
    let expected: Vec<String> = names.iter().map(|s| String::from(*s)).collect();
    assert_eq!(seen, expected);
    assert_eq!(c.queued_len(), 0);
    assert_eq!(c.render_state(), RenderState::Idle);
}

#[test]
fn enqueue_while_idle_is_promoted_next_tick() {
    let mut c = Notifications::new();
    c.add_notification(String::from("A"));
    c.tick(0);
    c.tick(4000);
    c.tick(500);
    assert_eq!(c.tick(16), RenderState::Idle);
    c.add_notification(String::from("late"));
    assert_eq!(c.tick(16), showing("late", INITIAL_OFFSET_MPX, DISPLAY_MS));
}

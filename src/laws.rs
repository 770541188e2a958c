use crate::notification::{CenterModel, INITIAL_OFFSET_MPX};
use vstd::prelude::*;

verus! {

/// One call made on a notification center from outside.
pub enum Event {
    /// `add_notification` with this message.
    Enqueue(String),
    /// `tick` with this many milliseconds.
    Tick(u64),
}

/// The state after one event.
pub open spec fn apply(m: CenterModel, e: Event) -> CenterModel {
    match e {
        Event::Enqueue(message) => m.enqueue(message),
        Event::Tick(delta) => m.tick(delta as nat),
    }
}

/// The message that an event brings on screen, if it brings one.
pub open spec fn promoted(m: CenterModel, e: Event) -> Seq<String> {
    match e {
        Event::Tick(_) => if m.is_promoting() {
            seq![m.queued[0]]
        } else {
            Seq::empty()
        },
        Event::Enqueue(_) => Seq::empty(),
    }
}

/// The state after a run of events, first event first.
pub open spec fn run(m: CenterModel, events: Seq<Event>) -> CenterModel
    decreases events.len(),
{
    if events.len() == 0 {
        m
    } else {
        apply(run(m, events.drop_last()), events.last())
    }
}

/// The messages brought on screen during a run, in the order they appeared.
pub open spec fn shown(m: CenterModel, events: Seq<Event>) -> Seq<String>
    decreases events.len(),
{
    if events.len() == 0 {
        Seq::empty()
    } else {
        shown(m, events.drop_last()) + promoted(run(m, events.drop_last()), events.last())
    }
}

/// The messages handed to `add_notification` during a run, in call order.
pub open spec fn enqueued(events: Seq<Event>) -> Seq<String>
    decreases events.len(),
{
    if events.len() == 0 {
        Seq::empty()
    } else {
        enqueued(events.drop_last()) + match events.last() {
            Event::Enqueue(message) => seq![message],
            Event::Tick(_) => Seq::empty(),
        }
    }
}

/// Every event keeps the state's invariant.
pub proof fn lemma_apply_wf(m: CenterModel, e: Event)
    requires
        m.wf(),
    ensures
        apply(m, e).wf(),
{
}

/// A run keeps the state's invariant.
pub proof fn lemma_run_wf(m: CenterModel, events: Seq<Event>)
    requires
        m.wf(),
    ensures
        run(m, events).wf(),
    decreases events.len(),
{
    if events.len() > 0 {
        lemma_run_wf(m, events.drop_last());
        lemma_apply_wf(run(m, events.drop_last()), events.last());
    }
}

/// Along any run, the messages shown followed by those still waiting are the
/// messages that were waiting at the start followed by those enqueued, in the
/// same order; and a message on screen is the last one shown, or was already
/// on screen at the start.
pub proof fn lemma_run_order(m: CenterModel, events: Seq<Event>)
    requires
        m.wf(),
    ensures
        shown(m, events) + run(m, events).queued == m.queued + enqueued(events),
        run(m, events).displaying is Some ==> {
            ||| shown(m, events).len() > 0 && run(m, events).displaying == Some(
                shown(m, events).last(),
            )
            ||| shown(m, events).len() == 0 && run(m, events).displaying == m.displaying
        },
    decreases events.len(),
{
    if events.len() > 0 {
        let prefix = events.drop_last();
        let e = events.last();
        let before = run(m, prefix);
        lemma_run_order(m, prefix);
        lemma_run_wf(m, prefix);
        let s = shown(m, prefix);
        match e {
            Event::Enqueue(message) => {
                assert(s + before.queued.push(message) =~= (s + before.queued).push(message));
                assert(m.queued + enqueued(events) =~= (m.queued + enqueued(prefix)).push(message));
                assert(shown(m, events) =~= s);
            },
            Event::Tick(delta) => {
                assert(enqueued(events) =~= enqueued(prefix));
                if before.is_promoting() {
                    let q = before.queued;
                    assert(seq![q[0]] + q.drop_first() =~= q);
                    assert(s + seq![q[0]] + q.drop_first() =~= s + q);
                    assert(shown(m, events).last() == q[0]);
                } else {
                    assert(shown(m, events) =~= s);
                }
            },
        }
    }
}

/// Messages are shown in the order they were enqueued, each exactly once:
/// from a fresh center, the messages shown so far followed by those still
/// waiting are exactly the messages enqueued, in call order, and the message
/// on screen is the last one shown.
pub proof fn lemma_fifo_exactly_once(events: Seq<Event>)
    ensures
        shown(CenterModel::empty(), events) + run(CenterModel::empty(), events).queued
            == enqueued(events),
        run(CenterModel::empty(), events).displaying is Some ==> {
            &&& shown(CenterModel::empty(), events).len() > 0
            &&& run(CenterModel::empty(), events).displaying == Some(
                shown(CenterModel::empty(), events).last(),
            )
        },
{
    lemma_run_order(CenterModel::empty(), events);
    assert(CenterModel::empty().queued + enqueued(events) =~= enqueued(events));
}

/// A tick of zero milliseconds changes neither the message on screen, nor the
/// queue, nor the timer, unless the next message is due: then it is promoted.
pub proof fn lemma_zero_tick(m: CenterModel)
    requires
        m.wf(),
        !m.is_promoting(),
    ensures
        m.tick(0) == m,
{
}

/// While a message stays on screen its slide offset never grows; a message
/// that has just appeared starts at the initial offset.
pub proof fn lemma_slide_monotone(m: CenterModel, delta: nat)
    requires
        m.wf(),
        m.tick(delta).displaying is Some,
    ensures
        m.displaying is Some ==> m.tick(delta).offset <= m.offset,
        m.displaying is None ==> m.tick(delta).offset == INITIAL_OFFSET_MPX,
        m.displaying is Some ==> m.tick(delta).displaying == m.displaying,
{
}

} // verus!

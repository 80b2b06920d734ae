//! Properties of the transition system, stated over the model and proved
//! once and for all.  [`crate::intercom::Intercom::change_state`] ensures
//! that each call advances the engine's view by exactly one [`step`], so
//! every law below carries over to the executable engine.

use vstd::prelude::*;

use crate::intercom::{
    event_handled, run, step, IntercomModel, IntercomSetupTasks, IntercomStateChangeEvent,
};

verus! {

broadcast use vstd::set::group_set_axioms;

/// Applying any event preserves the engine's reachable-state invariant.
pub proof fn lemma_step_preserves_inv(m: IntercomModel, event: IntercomStateChangeEvent)
    requires
        m.inv(),
    ensures
        step(m, event).inv(),
{
}

/// Law: starting in `Setup`, delivering a completion event for every
/// outstanding task exactly once, in any order, drives the engine to
/// `Waiting` with no task left over; before the last event it is still in
/// `Setup`, so `Waiting` is the only state it ever moves to.
pub proof fn lemma_setup_completes_in_any_order(
    m: IntercomModel,
    events: Seq<IntercomStateChangeEvent>,
    tasks: Seq<IntercomSetupTasks>,
)
    requires
        m.inv(),
        m.state is Setup,
        events.len() == tasks.len(),
        forall|i: int|
            0 <= i < events.len() ==> events[i] == (IntercomStateChangeEvent::SetupDone {
                task: tasks[i],
            }),
        tasks.no_duplicates(),
        tasks.to_set() =~= m.tasks,
    ensures
        run(m, events).state is Waiting,
        run(m, events).tasks.is_empty(),
        forall|k: int| 0 <= k < events.len() ==> run(m, events.take(k)).state is Setup,
    decreases events.len(),
{
    assert(tasks.len() > 0) by {
        if tasks.len() == 0 {
            assert(tasks.to_set() =~= Set::empty());
        }
    }
    let e0 = events[0];
    let t0 = tasks[0];
    let m1 = step(m, e0);
    assert(m.tasks.contains(t0)) by {
        assert(tasks.to_set().contains(t0));
    }
    assert(m1.tasks =~= tasks.skip(1).to_set()) by {
        assert forall|t: IntercomSetupTasks| #[trigger] tasks.skip(1).to_set().contains(t)
            implies m.tasks.remove(t0).contains(t) by {
            let j = choose|j: int| 0 <= j < tasks.skip(1).len() && tasks.skip(1)[j] == t;
            assert(tasks[j + 1] == t);
        }
        assert forall|t: IntercomSetupTasks| #[trigger] m.tasks.remove(t0).contains(t)
            implies tasks.skip(1).to_set().contains(t) by {
            let j = choose|j: int| 0 <= j < tasks.len() && tasks[j] == t;
            assert(tasks.skip(1)[j - 1] == t);
        }
    }
    assert(run(m, events) == run(m1, events.skip(1)));
    if events.len() == 1 {
        assert(tasks.skip(1).len() == 0);
        assert(m1.tasks.is_empty()) by {
            assert(m1.tasks =~= Set::empty());
        }
        assert(m1.state is Waiting);
        assert(events.skip(1).len() == 0);
        assert(run(m1, events.skip(1)) == m1);
        assert(forall|k: int|
            0 <= k < events.len() ==> run(m, events.take(k)).state is Setup) by {
            assert(events.take(0).len() == 0);
        }
    } else {
        assert(!m1.tasks.is_empty()) by {
            assert(tasks.skip(1)[0] == tasks[1]);
            assert(tasks.skip(1).to_set().contains(tasks[1]));
        }
        assert(m1.state is Setup);
        assert(m1.inv());
        assert(tasks.skip(1).no_duplicates()) by {
            assert forall|j: int, k: int|
                0 <= j < tasks.skip(1).len() && 0 <= k < tasks.skip(1).len() && j != k
                implies tasks.skip(1)[j] != tasks.skip(1)[k] by {
                assert(tasks.skip(1)[j] == tasks[j + 1]);
                assert(tasks.skip(1)[k] == tasks[k + 1]);
            }
        }
        assert forall|i: int| 0 <= i < events.skip(1).len()
            implies events.skip(1)[i] == (IntercomStateChangeEvent::SetupDone {
                task: tasks.skip(1)[i],
            }) by {
            assert(events.skip(1)[i] == events[i + 1]);
            assert(tasks.skip(1)[i] == tasks[i + 1]);
        }
        lemma_setup_completes_in_any_order(m1, events.skip(1), tasks.skip(1));
        assert forall|k: int| 0 <= k < events.len()
            implies run(m, events.take(k)).state is Setup by {
            if k == 0 {
                assert(events.take(0).len() == 0);
            } else {
                assert(events.take(k)[0] == e0);
                assert(events.take(k).skip(1) =~= events.skip(1).take(k - 1));
                assert(run(m, events.take(k)) == run(m1, events.skip(1).take(k - 1)));
            }
        }
    }
}

/// Law: a completion event for a task that is not outstanding leaves the
/// engine exactly as it was.
pub proof fn lemma_redundant_setup_done_is_noop(m: IntercomModel, task: IntercomSetupTasks)
    requires
        m.inv(),
        !m.tasks.contains(task),
    ensures
        step(m, IntercomStateChangeEvent::SetupDone { task }) == m,
{
    if m.state is Setup {
        assert(m.tasks.remove(task) =~= m.tasks);
    }
    assert(step(m, IntercomStateChangeEvent::SetupDone { task }) =~= m);
}

/// Law: from `Waiting`, three consecutive button presses walk the ring
/// `SettingInactive`, `SettingActive`, back to `Waiting`, and leave the
/// engine exactly where it started.
pub proof fn lemma_button_press_ring(m: IntercomModel)
    requires
        m.state is Waiting,
    ensures
        step(m, IntercomStateChangeEvent::ButtonPress).state is SettingInactive,
        step(step(m, IntercomStateChangeEvent::ButtonPress),
            IntercomStateChangeEvent::ButtonPress).state is SettingActive,
        step(step(step(m, IntercomStateChangeEvent::ButtonPress),
            IntercomStateChangeEvent::ButtonPress), IntercomStateChangeEvent::ButtonPress) == m,
{
    assert(step(step(step(m, IntercomStateChangeEvent::ButtonPress),
        IntercomStateChangeEvent::ButtonPress), IntercomStateChangeEvent::ButtonPress) =~= m);
}

/// Law: from `Waiting`, an open request moves the engine to `Moving` and
/// the completion acknowledgment returns it to `Waiting`; each of the two
/// events is an actual state change (so each is published).
pub proof fn lemma_open_cycle(m: IntercomModel)
    requires
        m.state is Waiting,
    ensures
        step(m, IntercomStateChangeEvent::SignalServoToOpen).state is Moving,
        step(m, IntercomStateChangeEvent::SignalServoToOpen).state != m.state,
        step(step(m, IntercomStateChangeEvent::SignalServoToOpen),
            IntercomStateChangeEvent::ServoDoneOpening) == m,
        step(step(m, IntercomStateChangeEvent::SignalServoToOpen),
            IntercomStateChangeEvent::ServoDoneOpening).state
            != step(m, IntercomStateChangeEvent::SignalServoToOpen).state,
{
    assert(step(step(m, IntercomStateChangeEvent::SignalServoToOpen),
        IntercomStateChangeEvent::ServoDoneOpening) =~= m);
}

/// Law: an event with no entry in the transition table for the current
/// state leaves the engine exactly as it was (and so nothing is published).
pub proof fn lemma_unhandled_event_is_noop(m: IntercomModel, event: IntercomStateChangeEvent)
    requires
        !event_handled(m.state, event),
    ensures
        step(m, event) == m,
{
    assert(step(m, event) =~= m);
}

/// Law: repeating an event that has no entry in the transition table for
/// the current state, any number of times, never changes the engine.
pub proof fn lemma_unhandled_event_idempotent(
    m: IntercomModel,
    event: IntercomStateChangeEvent,
    n: nat,
)
    requires
        !event_handled(m.state, event),
    ensures
        run(m, Seq::new(n, |i: int| event)) == m,
    decreases n,
{
    let events = Seq::new(n, |i: int| event);
    if n > 0 {
        lemma_unhandled_event_is_noop(m, event);
        assert(events.skip(1) =~= Seq::new((n - 1) as nat, |i: int| event));
        lemma_unhandled_event_idempotent(m, event, (n - 1) as nat);
    }
}

} // verus!

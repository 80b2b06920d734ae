//! The state-transition engine of the intercom actuator.
//!
//! The engine owns the current [`IntercomState`], the set of setup tasks that
//! have not yet reported completion, and the two servo angles it exposes to
//! collaborators.  Events are applied one at a time through
//! [`Intercom::change_state`]; whenever the state actually changes, the new
//! state is broadcast to every subscriber of the channel handed to
//! [`Intercom::new`].

use vstd::prelude::*;

verus! {

broadcast use vstd::seq_lib::seq_to_set_is_finite;

/// One discrete condition of the intercom control logic.
#[derive(Clone, Copy, PartialEq, Eq, Structural, Debug)]
pub enum IntercomState {
    Setup,
    Waiting,
    Moving,
    SettingInactive,
    SettingActive,
}

/// An initialization dependency that must report completion before the
/// engine leaves `Setup`.
#[derive(Clone, Copy, PartialEq, Eq, Structural, Debug)]
pub enum IntercomSetupTasks {
    SetupServo,
    SetupWifi,
}

/// A stimulus delivered to the engine, possibly triggering a transition.
#[derive(Clone, Copy, Debug)]
pub enum IntercomStateChangeEvent {
    SetupDone { task: IntercomSetupTasks },
    SignalServoToOpen,
    ServoDoneOpening,
    ButtonPress,
}

/// A servo target position, in degrees.
pub type Angle = u8;

/// The mathematical model of the engine: its state, the outstanding setup
/// tasks as a set, and the two fixed servo angles.
#[verifier::ext_equal]
pub struct IntercomModel {
    pub state: IntercomState,
    pub tasks: Set<IntercomSetupTasks>,
    pub servo_inactive_angle: Angle,
    pub servo_active_angle: Angle,
}

/// Every setup task the engine waits for before leaving `Setup`.
pub open spec fn known_setup_tasks() -> Set<IntercomSetupTasks> {
    set![IntercomSetupTasks::SetupServo, IntercomSetupTasks::SetupWifi]
}

impl IntercomModel {
    /// The reachable-state invariant: the outstanding-task set is finite,
    /// and while the engine is still in `Setup` at least one task remains
    /// (once the set drains, the engine moves to `Waiting` in the same step).
    pub open spec fn inv(self) -> bool {
        &&& self.tasks.finite()
        &&& (self.state is Setup ==> !self.tasks.is_empty())
    }
}

/// Whether the transition table has an entry for this (state, event) pair.
/// Any pair outside the table is a reported-but-ignored anomaly.
pub open spec fn event_handled(state: IntercomState, event: IntercomStateChangeEvent) -> bool {
    match (state, event) {
        (IntercomState::Setup, IntercomStateChangeEvent::SetupDone { .. }) => true,
        (IntercomState::Waiting, IntercomStateChangeEvent::ButtonPress) => true,
        (IntercomState::SettingInactive, IntercomStateChangeEvent::ButtonPress) => true,
        (IntercomState::SettingActive, IntercomStateChangeEvent::ButtonPress) => true,
        (IntercomState::Waiting, IntercomStateChangeEvent::SignalServoToOpen) => true,
        (IntercomState::Moving, IntercomStateChangeEvent::ServoDoneOpening) => true,
        _ => false,
    }
}

/// The transition table: the state after applying one event.
pub open spec fn next_state(
    state: IntercomState,
    tasks: Set<IntercomSetupTasks>,
    event: IntercomStateChangeEvent,
) -> IntercomState {
    match (state, event) {
        (IntercomState::Setup, IntercomStateChangeEvent::SetupDone { task }) => {
            if tasks.remove(task).is_empty() {
                IntercomState::Waiting
            } else {
                IntercomState::Setup
            }
        },
        (IntercomState::Waiting, IntercomStateChangeEvent::ButtonPress) => {
            IntercomState::SettingInactive
        },
        (IntercomState::SettingInactive, IntercomStateChangeEvent::ButtonPress) => {
            IntercomState::SettingActive
        },
        (IntercomState::SettingActive, IntercomStateChangeEvent::ButtonPress) => {
            IntercomState::Waiting
        },
        (IntercomState::Waiting, IntercomStateChangeEvent::SignalServoToOpen) => {
            IntercomState::Moving
        },
        (IntercomState::Moving, IntercomStateChangeEvent::ServoDoneOpening) => {
            IntercomState::Waiting
        },
        _ => state,
    }
}

/// The outstanding-task set after applying one event: only a completion
/// event delivered during `Setup` shrinks it.
pub open spec fn next_tasks(
    state: IntercomState,
    tasks: Set<IntercomSetupTasks>,
    event: IntercomStateChangeEvent,
) -> Set<IntercomSetupTasks> {
    match (state, event) {
        (IntercomState::Setup, IntercomStateChangeEvent::SetupDone { task }) => tasks.remove(task),
        _ => tasks,
    }
}

/// The model after applying one event.
pub open spec fn step(m: IntercomModel, event: IntercomStateChangeEvent) -> IntercomModel {
    IntercomModel {
        state: next_state(m.state, m.tasks, event),
        tasks: next_tasks(m.state, m.tasks, event),
        ..m
    }
}

/// The model after applying a sequence of events, first to last.
pub open spec fn run(m: IntercomModel, events: Seq<IntercomStateChangeEvent>) -> IntercomModel
    decreases events.len(),
{
    if events.len() == 0 {
        m
    } else {
        run(step(m, events[0]), events.skip(1))
    }
}

/// Declares `tokio::sync::broadcast::Sender`, the producer half of the
/// multi-subscriber channel on which state changes are announced.  The
/// value is opaque here: the engine only carries it and sends on it.
#[verifier::external_type_specification]
#[verifier::external_body]
#[verifier::reject_recursive_types(T)]
pub struct ExBroadcastSender<T>(tokio::sync::broadcast::Sender<T>);

/// Relies on `tokio::sync::broadcast::Sender::send`: it hands the value to
/// every receiver currently subscribed and reports whether at least one
/// receiver existed.  Publishing is best-effort, so nothing is claimed of
/// the result.
#[verifier::external_body]
fn broadcast_send(
    tx: &tokio::sync::broadcast::Sender<IntercomState>,
    state: IntercomState,
) -> (delivered: bool) {
    tx.send(state).is_ok()
}

/// A sequence's set of elements is empty exactly when the sequence is.
proof fn lemma_to_set_empty_iff(s: Seq<IntercomSetupTasks>)
    ensures
        s.to_set().is_empty() <==> s.len() == 0,
{
    if s.len() == 0 {
        assert(s.to_set() =~= Set::empty());
    } else {
        assert(s.to_set().contains(s[0]));
    }
}

/// Removes `task` from the vector if present, reporting whether it was.
/// On the set of elements this is exactly `Set::remove`.
fn remove_task(tasks: &mut Vec<IntercomSetupTasks>, task: IntercomSetupTasks) -> (found: bool)
    requires
        old(tasks)@.no_duplicates(),
    ensures
        final(tasks)@.no_duplicates(),
        final(tasks)@.to_set() =~= old(tasks)@.to_set().remove(task),
        found == old(tasks)@.to_set().contains(task),
        final(tasks)@.len() == if found {
            old(tasks)@.len() - 1
        } else {
            old(tasks)@.len() as int
        },
{
    let ghost s = tasks@;
    let mut i: usize = 0;
    while i < tasks.len()
        invariant
            tasks@ == s,
            s == old(tasks)@,
            0 <= i <= s.len(),
            s.no_duplicates(),
            forall|k: int| 0 <= k < i ==> s[k] != task,
        decreases s.len() - i,
    {
        if tasks[i] == task {
            let _removed = tasks.remove(i);
            proof {
                assert(s[i as int] == task);
                assert forall|t: IntercomSetupTasks| #[trigger] tasks@.to_set().contains(t)
                    implies s.to_set().remove(task).contains(t) by {
                    let j = choose|j: int| 0 <= j < tasks@.len() && tasks@[j] == t;
                    if j < i {
                        assert(s[j] == t);
                    } else {
                        assert(s[j + 1] == t);
                    }
                }
                assert forall|t: IntercomSetupTasks| #[trigger] s.to_set().remove(task).contains(t)
                    implies tasks@.to_set().contains(t) by {
                    let j = choose|j: int| 0 <= j < s.len() && s[j] == t;
                    if j < i {
                        assert(tasks@[j] == t);
                    } else {
                        assert(tasks@[j - 1] == t);
                    }
                }
                assert(tasks@.to_set() =~= s.to_set().remove(task));
                assert forall|j: int, k: int|
                    0 <= j < tasks@.len() && 0 <= k < tasks@.len() && j != k
                    implies tasks@[j] != tasks@[k] by {
                    let j0: int = if j < i { j } else { j + 1 };
                    let k0: int = if k < i { k } else { k + 1 };
                    assert(tasks@[j] == s[j0]);
                    assert(tasks@[k] == s[k0]);
                }
            }
            return true;
        }
        i += 1;
    }
    proof {
        assert(!s.to_set().contains(task));
        assert(tasks@.to_set() =~= s.to_set().remove(task));
    }
    false
}

/// The state machine engine.  It is the sole owner of its state; all
/// mutation goes through [`Intercom::change_state`].
pub struct Intercom {
    state: IntercomState,
    servo_inactive_angle: Angle,
    servo_active_angle: Angle,
    setup_tasks_remaining: Vec<IntercomSetupTasks>,
    change_tx: tokio::sync::broadcast::Sender<IntercomState>,
}

impl View for Intercom {
    type V = IntercomModel;

    closed spec fn view(&self) -> IntercomModel {
        IntercomModel {
            state: self.state,
            tasks: self.setup_tasks_remaining@.to_set(),
            servo_inactive_angle: self.servo_inactive_angle,
            servo_active_angle: self.servo_active_angle,
        }
    }
}

impl Intercom {
    /// Well-formedness of the representation: the outstanding-task vector
    /// holds each task at most once, and it is drained only at the moment
    /// the engine leaves `Setup`.
    pub closed spec fn wf(self) -> bool {
        &&& self.setup_tasks_remaining@.no_duplicates()
        &&& (self.state is Setup ==> self.setup_tasks_remaining@.len() > 0)
    }

    /// Constructs the engine: state `Setup`, every known setup task
    /// outstanding, closed angle 0 and open angle 30, publishing state
    /// changes on `change_tx`.
    pub fn new(change_tx: tokio::sync::broadcast::Sender<IntercomState>) -> (intercom: Self)
        ensures
            intercom.wf(),
            intercom@.inv(),
            intercom@.state is Setup,
            intercom@.tasks =~= known_setup_tasks(),
            intercom@.servo_inactive_angle == 0,
            intercom@.servo_active_angle == 30,
    {
        let mut setup_tasks_remaining: Vec<IntercomSetupTasks> = Vec::new();
        setup_tasks_remaining.push(IntercomSetupTasks::SetupWifi);
        setup_tasks_remaining.push(IntercomSetupTasks::SetupServo);
        proof {
            assert(setup_tasks_remaining@[0] == IntercomSetupTasks::SetupWifi);
            assert(setup_tasks_remaining@[1] == IntercomSetupTasks::SetupServo);
            assert(setup_tasks_remaining@.to_set() =~= known_setup_tasks());
        }
        Intercom {
            state: IntercomState::Setup,
            servo_active_angle: 30,
            servo_inactive_angle: 0,
            change_tx,
            setup_tasks_remaining,
        }
    }

    /// Applies one event: consults the transition table, mutates the state
    /// and the outstanding-task set accordingly, and broadcasts the new
    /// state exactly when it differs from the state held before the call.
    /// A completion event for a task no longer outstanding and any
    /// (state, event) pair outside the table are tolerated anomalies: the
    /// engine is left unchanged.
    pub fn change_state(&mut self, event: IntercomStateChangeEvent)
        requires
            old(self).wf(),
        ensures
            final(self).wf(),
            final(self)@.inv(),
            final(self)@ =~= step(old(self)@, event),
    {
        let prev_state = self.state;
        match (self.state, event) {
            (IntercomState::Setup, IntercomStateChangeEvent::SetupDone { task }) => {
                // A completion for a task no longer outstanding is a
                // tolerated anomaly: the set, and so the state, is unchanged.
                remove_task(&mut self.setup_tasks_remaining, task);
                if self.setup_tasks_remaining.len() == 0 {
                    self.state = IntercomState::Waiting;
                }
            },
            (IntercomState::Waiting, IntercomStateChangeEvent::ButtonPress) => {
                self.state = IntercomState::SettingInactive;
            },
            (IntercomState::SettingInactive, IntercomStateChangeEvent::ButtonPress) => {
                self.state = IntercomState::SettingActive;
            },
            (IntercomState::SettingActive, IntercomStateChangeEvent::ButtonPress) => {
                self.state = IntercomState::Waiting;
            },
            (IntercomState::Waiting, IntercomStateChangeEvent::SignalServoToOpen) => {
                self.state = IntercomState::Moving;
            },
            (IntercomState::Moving, IntercomStateChangeEvent::ServoDoneOpening) => {
                self.state = IntercomState::Waiting;
            },
            _ => {},
        }
        proof {
            lemma_to_set_empty_iff(self.setup_tasks_remaining@);
        }
        if self.state != prev_state {
            // Best-effort publish: with no subscriber the send fails,
            // which is not an error.
            broadcast_send(&self.change_tx, self.state);
        }
    }

    /// The current state.
    pub fn get_state(&self) -> (state: IntercomState)
        ensures
            state == self@.state,
    {
        self.state
    }

    /// The servo position for the open door.
    pub fn get_servo_active_angle(&self) -> (angle: Angle)
        ensures
            angle == self@.servo_active_angle,
    {
        self.servo_active_angle
    }

    /// The servo position for the closed door.
    pub fn get_servo_inactive_angle(&self) -> (angle: Angle)
        ensures
            angle == self@.servo_inactive_angle,
    {
        self.servo_inactive_angle
    }
}

} // verus!

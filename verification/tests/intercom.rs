use intercom_open::intercom::{
    Intercom, IntercomSetupTasks, IntercomState, IntercomStateChangeEvent,
};
use tokio::sync::broadcast;

fn fresh_engine() -> (Intercom, broadcast::Receiver<IntercomState>) {
    let (tx, rx) = broadcast::channel(16);
    (Intercom::new(tx), rx)
}

fn drain(rx: &mut broadcast::Receiver<IntercomState>) -> Vec<IntercomState> {
    let mut seen = Vec::new();
    while let Ok(state) = rx.try_recv() {
        seen.push(state);
    }
    seen
}

fn finish_setup(engine: &mut Intercom) {
    engine.change_state(IntercomStateChangeEvent::SetupDone {
        task: IntercomSetupTasks::SetupServo,
    });
    engine.change_state(IntercomStateChangeEvent::SetupDone {
        task: IntercomSetupTasks::SetupWifi,
    });
}

#[test]
fn new_engine_defaults() {
    let (engine, _rx) = fresh_engine();
    assert_eq!(engine.get_state(), IntercomState::Setup);
    assert_eq!(engine.get_servo_inactive_angle(), 0);
    assert_eq!(engine.get_servo_active_angle(), 30);
}

#[test]
fn setup_completes_servo_first() {
    let (mut engine, _rx) = fresh_engine();
    engine.change_state(IntercomStateChangeEvent::SetupDone {
        task: IntercomSetupTasks::SetupServo,
    });
    assert_eq!(engine.get_state(), IntercomState::Setup);
    engine.change_state(IntercomStateChangeEvent::SetupDone {
        task: IntercomSetupTasks::SetupWifi,
    });
    assert_eq!(engine.get_state(), IntercomState::Waiting);
}

#[test]
fn setup_completes_wifi_first() {
    let (mut engine, _rx) = fresh_engine();
    engine.change_state(IntercomStateChangeEvent::SetupDone {
        task: IntercomSetupTasks::SetupWifi,
    });
    assert_eq!(engine.get_state(), IntercomState::Setup);
    engine.change_state(IntercomStateChangeEvent::SetupDone {
        task: IntercomSetupTasks::SetupServo,
    });
    assert_eq!(engine.get_state(), IntercomState::Waiting);
}

#[test]
fn redundant_setup_done_keeps_state() {
    let (mut engine, mut rx) = fresh_engine();
    engine.change_state(IntercomStateChangeEvent::SetupDone {
        task: IntercomSetupTasks::SetupServo,
    });
    // The servo task is no longer outstanding: reporting it again is a
    // tolerated anomaly that changes nothing and publishes nothing.
    engine.change_state(IntercomStateChangeEvent::SetupDone {
        task: IntercomSetupTasks::SetupServo,
    });
    assert_eq!(engine.get_state(), IntercomState::Setup);
    assert_eq!(drain(&mut rx), Vec::<IntercomState>::new());
    engine.change_state(IntercomStateChangeEvent::SetupDone {
        task: IntercomSetupTasks::SetupWifi,
    });
    assert_eq!(engine.get_state(), IntercomState::Waiting);
}

#[test]
fn button_press_ring_is_a_three_cycle() {
    let (mut engine, _rx) = fresh_engine();
    finish_setup(&mut engine);
    assert_eq!(engine.get_state(), IntercomState::Waiting);
    engine.change_state(IntercomStateChangeEvent::ButtonPress);
    assert_eq!(engine.get_state(), IntercomState::SettingInactive);
    engine.change_state(IntercomStateChangeEvent::ButtonPress);
    assert_eq!(engine.get_state(), IntercomState::SettingActive);
    engine.change_state(IntercomStateChangeEvent::ButtonPress);
    assert_eq!(engine.get_state(), IntercomState::Waiting);
}

#[test]
fn open_cycle_publishes_exactly_twice() {
    let (mut engine, mut rx) = fresh_engine();
    finish_setup(&mut engine);
    let _ = drain(&mut rx);
    engine.change_state(IntercomStateChangeEvent::SignalServoToOpen);
    assert_eq!(engine.get_state(), IntercomState::Moving);
    engine.change_state(IntercomStateChangeEvent::ServoDoneOpening);
    assert_eq!(engine.get_state(), IntercomState::Waiting);
    assert_eq!(
        drain(&mut rx),
        vec![IntercomState::Moving, IntercomState::Waiting]
    );
}

#[test]
fn unhandled_event_changes_nothing_and_publishes_nothing() {
    let (mut engine, mut rx) = fresh_engine();
    finish_setup(&mut engine);
    let _ = drain(&mut rx);
    engine.change_state(IntercomStateChangeEvent::ServoDoneOpening);
    assert_eq!(engine.get_state(), IntercomState::Waiting);
    assert_eq!(drain(&mut rx), Vec::<IntercomState>::new());
}

#[test]
fn unhandled_event_is_idempotent() {
    let (mut engine, mut rx) = fresh_engine();
    finish_setup(&mut engine);
    engine.change_state(IntercomStateChangeEvent::SignalServoToOpen);
    let _ = drain(&mut rx);
    for _ in 0..25 {
        // `ButtonPress` has no entry for `Moving`: repeating it any number
        // of times leaves the engine untouched.
        engine.change_state(IntercomStateChangeEvent::ButtonPress);
        assert_eq!(engine.get_state(), IntercomState::Moving);
    }
    assert_eq!(drain(&mut rx), Vec::<IntercomState>::new());
}

#[test]
fn setup_done_after_setup_is_unhandled() {
    let (mut engine, mut rx) = fresh_engine();
    finish_setup(&mut engine);
    let _ = drain(&mut rx);
    engine.change_state(IntercomStateChangeEvent::SetupDone {
        task: IntercomSetupTasks::SetupServo,
    });
    assert_eq!(engine.get_state(), IntercomState::Waiting);
    assert_eq!(drain(&mut rx), Vec::<IntercomState>::new());
}

#[test]
fn concrete_scenario_with_subscriber() {
    let (mut engine, mut rx) = fresh_engine();
    assert_eq!(engine.get_state(), IntercomState::Setup);
    assert_eq!(engine.get_servo_inactive_angle(), 0);
    assert_eq!(engine.get_servo_active_angle(), 30);

    engine.change_state(IntercomStateChangeEvent::SetupDone {
        task: IntercomSetupTasks::SetupServo,
    });
    assert_eq!(engine.get_state(), IntercomState::Setup);
    assert_eq!(drain(&mut rx), Vec::<IntercomState>::new());

    engine.change_state(IntercomStateChangeEvent::SetupDone {
        task: IntercomSetupTasks::SetupWifi,
    });
    assert_eq!(engine.get_state(), IntercomState::Waiting);
    assert_eq!(drain(&mut rx), vec![IntercomState::Waiting]);

    engine.change_state(IntercomStateChangeEvent::ButtonPress);
    assert_eq!(engine.get_state(), IntercomState::SettingInactive);
    assert_eq!(drain(&mut rx), vec![IntercomState::SettingInactive]);

    // No transition is defined for (SettingInactive, SignalServoToOpen):
    // the state is kept and nothing is published.
    engine.change_state(IntercomStateChangeEvent::SignalServoToOpen);
    assert_eq!(engine.get_state(), IntercomState::SettingInactive);
    assert_eq!(drain(&mut rx), Vec::<IntercomState>::new());
}

#[test]
fn publish_reaches_every_subscriber() {
    let (tx, mut rx_a) = broadcast::channel(16);
    let mut rx_b = tx.subscribe();
    let mut engine = Intercom::new(tx);
    finish_setup(&mut engine);
    assert_eq!(drain(&mut rx_a), vec![IntercomState::Waiting]);
    assert_eq!(drain(&mut rx_b), vec![IntercomState::Waiting]);
}

#[test]
fn publish_without_subscribers_is_no_error() {
    let (tx, rx) = broadcast::channel(16);
    drop(rx);
    let mut engine = Intercom::new(tx);
    finish_setup(&mut engine);
    assert_eq!(engine.get_state(), IntercomState::Waiting);
}

use rdev::converter::{Converter, NativeEvent, NativeEventKind};
use rdev::event::{Button, Event, EventType, ListenError};
use rdev::lifecycle::{Lifecycle, Phase};

#[test]
fn stop_without_active_listener_is_an_error() {
    let mut lifecycle = Lifecycle::new();
    assert_eq!(lifecycle.request_stop(), Err(ListenError::StopSignalFailed));
    assert_eq!(lifecycle.phase, Phase::Idle);
}

#[test]
fn stop_while_installing_is_an_error() {
    let mut lifecycle = Lifecycle::new();
    lifecycle.begin_listen();
    assert_eq!(lifecycle.request_stop(), Err(ListenError::StopSignalFailed));
    assert_eq!(lifecycle.phase, Phase::Installing);
}

#[test]
fn hook_creation_failure_is_surfaced_and_returns_to_idle() {
    let mut lifecycle = Lifecycle::new();
    lifecycle.begin_listen();
    assert_eq!(
        lifecycle.install_outcome(false, false),
        Err(ListenError::HookCreationFailed)
    );
    assert_eq!(lifecycle.phase, Phase::Idle);
}

#[test]
fn attach_failure_is_surfaced_and_returns_to_idle() {
    let mut lifecycle = Lifecycle::new();
    lifecycle.begin_listen();
    assert_eq!(
        lifecycle.install_outcome(true, false),
        Err(ListenError::EventLoopAttachFailed)
    );
    assert_eq!(lifecycle.phase, Phase::Idle);
}

#[test]
fn successful_install_runs_then_stop_succeeds_once() {
    let mut lifecycle = Lifecycle::new();
    lifecycle.begin_listen();
    assert_eq!(lifecycle.install_outcome(true, true), Ok(()));
    assert_eq!(lifecycle.phase, Phase::Running);
    assert_eq!(lifecycle.request_stop(), Ok(()));
    assert_eq!(lifecycle.phase, Phase::Idle);
    assert_eq!(lifecycle.request_stop(), Err(ListenError::StopSignalFailed));
}

#[test]
fn pump_return_leaves_no_active_listener() {
    let mut lifecycle = Lifecycle::new();
    lifecycle.begin_listen();
    assert_eq!(lifecycle.install_outcome(true, true), Ok(()));
    lifecycle.pump_returned();
    assert_eq!(lifecycle.phase, Phase::Idle);
}

#[test]
fn left_button_click_scenario_delivers_press_then_release() {
    let mut lifecycle = Lifecycle::new();
    lifecycle.begin_listen();
    assert_eq!(lifecycle.install_outcome(true, true), Ok(()));

    let mut converter = Converter::new();
    let mut delivered: Vec<Event> = Vec::new();
    let down = NativeEvent {
        kind: NativeEventKind::LeftMouseDown,
        code: 0,
        flags: 0,
        x: 10,
        y: 20,
        delta_x: 0,
        delta_y: 0,
    };
    let up = NativeEvent { kind: NativeEventKind::LeftMouseUp, ..down };
    for (record, time) in [(down, 100u64), (up, 101u64)] {
        if let Some(event) = converter.convert(&record, time) {
            delivered.push(event);
        }
    }

    assert_eq!(delivered.len(), 2);
    assert_eq!(delivered[0].event_type, EventType::ButtonPress(Button::Left));
    assert_eq!(delivered[1].event_type, EventType::ButtonRelease(Button::Left));
    assert!(delivered[1].time >= delivered[0].time);

    assert_eq!(lifecycle.request_stop(), Ok(()));
}

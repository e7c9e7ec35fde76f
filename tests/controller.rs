use intersection::controller::{Controller, Readings, SECOND_SIGNAL_DELAY};
use intersection::gate::{Gate, DUTY_CLOSED, DUTY_OPEN};
use intersection::light::Phase;

fn quiet() -> Readings {
    Readings { light: 500, gate: 0, button: false }
}

#[test]
fn power_on_state() {
    let c = Controller::new();
    assert_eq!((c.first().phase(), c.first().remaining()), (Phase::Green, 0));
    assert_eq!(
        (c.second().phase(), c.second().remaining()),
        (Phase::Green, SECOND_SIGNAL_DELAY)
    );
    assert!(!c.gate().is_open());
}

#[test]
fn street_light_follows_darkness() {
    let mut c = Controller::new();
    assert!(c.step(Readings { light: 149, gate: 0, button: false }).street_light);
    assert!(!c.step(Readings { light: 150, gate: 0, button: false }).street_light);
    assert!(c.step(Readings { light: 0, gate: 0, button: false }).street_light);
}

#[test]
fn signals_tick_once_per_step() {
    let mut c = Controller::new();
    let out = c.step(quiet());
    assert_eq!((c.first().phase(), c.first().remaining()), (Phase::Yellow, 30));
    assert_eq!((c.second().phase(), c.second().remaining()), (Phase::Green, 99));
    assert!(out.first.yellow && !out.first.red && !out.first.green);
    assert!(out.second.green && !out.second.red && !out.second.yellow);
}

#[test]
fn button_press_speeds_up_both_signals_once() {
    let mut c = Controller::new();
    c.step(quiet());
    // first: Yellow 30, second: Green 99
    let pressed = Readings { light: 500, gate: 0, button: true };
    c.step(pressed);
    // first: 30 -> speedup 50 -> Red 80 -> tick -> Red 79
    assert_eq!((c.first().phase(), c.first().remaining()), (Phase::Red, 79));
    // second: 99 -> speedup 50 -> 49 -> tick -> 48
    assert_eq!((c.second().phase(), c.second().remaining()), (Phase::Green, 48));
    c.step(pressed);
    assert_eq!((c.first().phase(), c.first().remaining()), (Phase::Red, 78));
    assert_eq!((c.second().phase(), c.second().remaining()), (Phase::Green, 47));
    c.step(quiet());
    assert_eq!(c.first().remaining(), 77);
    c.step(pressed);
    assert_eq!((c.first().phase(), c.first().remaining()), (Phase::Red, 26));
    assert_eq!((c.second().phase(), c.second().remaining()), (Phase::Yellow, 25));
}

#[test]
fn gate_threshold_is_strict() {
    let mut c = Controller::new();
    let out = c.step(Readings { light: 500, gate: 100, button: false });
    assert_eq!(out.gate.duty, None);
    assert!(!c.gate().is_open());
    let out = c.step(Readings { light: 500, gate: 101, button: false });
    assert_eq!(out.gate.duty, Some(DUTY_OPEN));
    assert!(c.gate().is_open());
}

#[test]
fn gate_cascade_orders_servo_events() {
    let mut c = Controller::new();
    let mut events = Vec::new();
    for i in 0..80u32 {
        let gate = if i == 0 { 300 } else { 20 };
        let out = c.step(Readings { light: 500, gate, button: false });
        if let Some(d) = out.gate.duty {
            events.push((i, "duty", d as u32));
        }
        if let Some(on) = out.gate.servo {
            events.push((i, "servo", on as u32));
        }
    }
    assert_eq!(
        events,
        vec![
            (0, "duty", DUTY_OPEN as u32),
            (0, "servo", 1),
            (10, "servo", 0),
            (40, "duty", DUTY_CLOSED as u32),
            (40, "servo", 1),
            (50, "servo", 0),
        ]
    );
}

#[test]
fn gate_stays_open_while_sensed() {
    let mut g = Gate::new(4, 2);
    let a = g.step(true);
    assert_eq!((a.duty, a.servo), (Some(DUTY_OPEN), Some(true)));
    for _ in 0..10 {
        let a = g.step(true);
        assert_eq!(a.duty, None);
    }
    assert!(g.is_open());
    let mut closed_at = None;
    for i in 0..10u32 {
        let a = g.step(false);
        if a.duty == Some(DUTY_CLOSED) {
            closed_at = Some(i);
        }
    }
    assert_eq!(closed_at, Some(3));
    assert!(!g.is_open());
}

#[test]
fn motion_window_longer_than_open_window_retriggers() {
    let mut g = Gate::new(2, 5);
    assert_eq!(g.step(true).servo, Some(true));
    assert_eq!(g.step(false).servo, None);
    let a = g.step(false);
    assert_eq!((a.duty, a.servo), (Some(DUTY_CLOSED), None));
    for _ in 0..4 {
        assert_eq!(g.step(false).servo, None);
    }
    assert_eq!(g.step(false).servo, Some(false));
}

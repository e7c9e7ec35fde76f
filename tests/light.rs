use intersection::light::{Lamps, Phase, TrafficLight, GREEN_TIME, RED_TIME, YELLOW_TIME};

fn lit(l: Lamps) -> u32 {
    l.red as u32 + l.yellow as u32 + l.green as u32
}

#[test]
fn new_light_moves_to_yellow_on_first_tick() {
    let mut t = TrafficLight::new();
    assert_eq!(t.phase(), Phase::Green);
    assert_eq!(t.remaining(), 0);
    t.tick();
    assert_eq!(t.phase(), Phase::Yellow);
    assert_eq!(t.remaining(), YELLOW_TIME);
}

#[test]
fn advance_cycles_through_all_phases() {
    let mut t = TrafficLight::starting_at(Phase::Green, 5);
    t.advance();
    assert_eq!((t.phase(), t.remaining()), (Phase::Yellow, 30));
    t.advance();
    assert_eq!((t.phase(), t.remaining()), (Phase::Red, 100));
    t.advance();
    assert_eq!((t.phase(), t.remaining()), (Phase::Green, 70));
}

#[test]
fn full_cycle_from_green() {
    let mut t = TrafficLight::starting_at(Phase::Green, GREEN_TIME);
    for _ in 0..70 {
        t.tick();
    }
    assert_eq!((t.phase(), t.remaining()), (Phase::Green, 0));
    t.tick();
    assert_eq!((t.phase(), t.remaining()), (Phase::Yellow, YELLOW_TIME));
    for _ in 0..31 {
        t.tick();
    }
    assert_eq!((t.phase(), t.remaining()), (Phase::Red, RED_TIME));
    for _ in 0..101 {
        t.tick();
    }
    assert_eq!((t.phase(), t.remaining()), (Phase::Green, GREEN_TIME));
}

#[test]
fn exactly_one_lamp_every_tick() {
    let mut t = TrafficLight::new();
    for _ in 0..500 {
        let l = t.lamps();
        assert_eq!(lit(l), 1);
        match t.phase() {
            Phase::Green => assert!(l.green),
            Phase::Yellow => assert!(l.yellow),
            Phase::Red => assert!(l.red),
        }
        t.tick();
    }
}

#[test]
fn speedup_crosses_into_yellow() {
    let mut t = TrafficLight::starting_at(Phase::Green, 70);
    t.force_speedup_by(80);
    assert_eq!(t.phase(), Phase::Yellow);
    assert_eq!(t.remaining(), 20);
}

#[test]
fn speedup_by_zero_is_noop() {
    let mut t = TrafficLight::starting_at(Phase::Red, 42);
    t.force_speedup_by(0);
    assert_eq!((t.phase(), t.remaining()), (Phase::Red, 42));
    let mut u = TrafficLight::new();
    u.force_speedup_by(0);
    assert_eq!((u.phase(), u.remaining()), (Phase::Green, 0));
}

#[test]
fn speedup_within_phase() {
    let mut t = TrafficLight::starting_at(Phase::Red, 100);
    t.force_speedup_by(50);
    assert_eq!((t.phase(), t.remaining()), (Phase::Red, 50));
}

#[test]
fn speedup_equal_to_remaining_stays_in_phase() {
    let mut t = TrafficLight::starting_at(Phase::Yellow, 30);
    t.force_speedup_by(30);
    assert_eq!((t.phase(), t.remaining()), (Phase::Yellow, 0));
}

#[test]
fn speedup_from_zero_enters_next_phase() {
    let mut t = TrafficLight::starting_at(Phase::Green, 0);
    t.force_speedup_by(10);
    assert_eq!((t.phase(), t.remaining()), (Phase::Yellow, 20));
}

#[test]
fn speedup_crosses_several_phases() {
    let mut t = TrafficLight::starting_at(Phase::Green, 5);
    t.force_speedup_by(200);
    assert_eq!((t.phase(), t.remaining()), (Phase::Green, 5));
    let mut u = TrafficLight::starting_at(Phase::Yellow, 1);
    u.force_speedup_by(255);
    assert_eq!((u.phase(), u.remaining()), (Phase::Red, 46));
}

//! The intersection controller: two signals, a pedestrian call that pushes
//! them forward, a street light and the parking-lot gate, advanced once per
//! tick from plain sensor readings.
use vstd::prelude::*;
use crate::gate::{
    Gate, GateAction, GateModel, GATE_MOTION_TICKS, GATE_OPEN_TICKS, gate_idle, gate_step,
    gate_wf,
};
use crate::light::{
    Lamps, LightModel, Phase, TrafficLight, lamps_of, light_step, lit_count, sped_up,
};

verus! {

/// Ticks a pedestrian call takes off both signals.
pub const SPEEDUP_TICKS: u8 = 50;

/// Gate-sensor level above which a vehicle is at the barrier.
pub const GATE_TRIGGER: u16 = 100;

/// Ambient-light level below which the street light is lit.
pub const DARK_BELOW: u16 = 150;

/// Ticks the second signal holds Green before its first change, so that
/// the two signals run out of step.
pub const SECOND_SIGNAL_DELAY: u8 = 100;

/// The sensor readings of one tick.
#[derive(Clone, Copy, Debug, PartialEq, Eq, Structural)]
pub struct Readings {
    /// Ambient-light level.
    pub light: u16,
    /// Gate-sensor level.
    pub gate: u16,
    /// Whether the pedestrian button is held.
    pub button: bool,
}

/// What one tick asks of the actuators.
#[derive(Clone, Copy, Debug, PartialEq, Eq, Structural)]
pub struct Outputs {
    /// Whether the street light is lit.
    pub street_light: bool,
    /// The lamps of the first signal.
    pub first: Lamps,
    /// The lamps of the second signal.
    pub second: Lamps,
    /// What the barrier asks of its servo.
    pub gate: GateAction,
}

/// The abstract state of a [`Controller`].
pub struct ControllerModel {
    /// The first signal.
    pub first: LightModel,
    /// The second signal.
    pub second: LightModel,
    /// The barrier and its servo.
    pub gate: GateModel,
    /// Whether the button was held on the previous tick.
    pub was_pressed: bool,
}

/// A pedestrian call is the button going from released to held.
pub open spec fn is_call(m: ControllerModel, r: Readings) -> bool {
    !m.was_pressed && r.button
}

/// One signal's tick: pushed forward first on a call, then ticked once.
pub open spec fn signal_step(l: LightModel, call: bool) -> LightModel {
    light_step(if call { sped_up(l, SPEEDUP_TICKS as nat) } else { l })
}

/// One tick of the whole intersection.
pub open spec fn controller_step(m: ControllerModel, r: Readings) -> (ControllerModel, Outputs) {
    let call = is_call(m, r);
    let first = signal_step(m.first, call);
    let second = signal_step(m.second, call);
    let (gate, action) = gate_step(m.gate, r.gate > GATE_TRIGGER);
    (
        ControllerModel { first, second, gate, was_pressed: r.button },
        Outputs {
            street_light: r.light < DARK_BELOW,
            first: lamps_of(first.phase),
            second: lamps_of(second.phase),
            gate: action,
        },
    )
}

/// The whole intersection.
pub struct Controller {
    t1: TrafficLight,
    t2: TrafficLight,
    gate: Gate,
    was_button_pressed: bool,
}

impl View for Controller {
    type V = ControllerModel;

    closed spec fn view(&self) -> ControllerModel {
        ControllerModel {
            first: self.t1@,
            second: self.t2@,
            gate: self.gate@,
            was_pressed: self.was_button_pressed,
        }
    }
}

impl Controller {
    /// The barrier's windows stay within their widths.
    pub open spec fn wf(&self) -> bool {
        gate_wf(self@.gate)
    }

    /// The intersection at power-on: both signals in Green, the second held
    /// back, the barrier at rest and the button released.
    pub fn new() -> (r: Controller)
        ensures
            r.wf(),
            r@.first == (LightModel { phase: Phase::Green, remaining: 0 }),
            r@.second == (LightModel {
                phase: Phase::Green,
                remaining: SECOND_SIGNAL_DELAY as nat,
            }),
            gate_idle(r@.gate),
            r@.gate.open.width == GATE_OPEN_TICKS as nat,
            r@.gate.motion.width == GATE_MOTION_TICKS as nat,
            !r@.was_pressed,
    {
        Controller {
            t1: TrafficLight::new(),
            t2: TrafficLight::starting_at(Phase::Green, SECOND_SIGNAL_DELAY),
            gate: Gate::new(GATE_OPEN_TICKS, GATE_MOTION_TICKS),
            was_button_pressed: false,
        }
    }

    /// Advances one tick on the given readings.
    pub fn step(&mut self, readings: Readings) -> (r: Outputs)
        requires
            old(self).wf(),
        ensures
            final(self).wf(),
            (final(self)@, r) == controller_step(old(self)@, readings),
            lit_count(r.first) == 1,
            lit_count(r.second) == 1,
    {
        let is_button_pressed = readings.button;
        if !self.was_button_pressed && is_button_pressed {
            self.t2.force_speedup_by(SPEEDUP_TICKS);
            self.t1.force_speedup_by(SPEEDUP_TICKS);
        }
        self.was_button_pressed = is_button_pressed;
        self.t1.tick();
        self.t2.tick();
        let gate = self.gate.step(readings.gate > GATE_TRIGGER);
        Outputs {
            street_light: readings.light < DARK_BELOW,
            first: self.t1.lamps(),
            second: self.t2.lamps(),
            gate,
        }
    }

    /// The first signal.
    pub fn first(&self) -> (r: &TrafficLight)
        ensures
            r@ == self@.first,
    {
        &self.t1
    }

    /// The second signal.
    pub fn second(&self) -> (r: &TrafficLight)
        ensures
            r@ == self@.second,
    {
        &self.t2
    }

    /// The barrier.
    pub fn gate(&self) -> (r: &Gate)
        ensures
            r@ == self@.gate,
    {
        &self.gate
    }
}

} // verus!

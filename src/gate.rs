//! The parking-lot gate: a sensed vehicle holds the barrier open for a
//! window, and the servo is powered only while the barrier moves.
use vstd::prelude::*;
use crate::timer::{Timer, TimerModel, timer_event, timer_pulsed, timer_step, timer_wf};

verus! {

/// Servo duty that holds the barrier open.
pub const DUTY_OPEN: u8 = 250;

/// Servo duty that holds the barrier closed.
pub const DUTY_CLOSED: u8 = 100;

/// Ticks the barrier stays open after the last sensing.
pub const GATE_OPEN_TICKS: u8 = 40;

/// Ticks the servo stays powered after each open or close command.
pub const GATE_MOTION_TICKS: u8 = 10;

/// What the barrier asks of the servo on one tick.
#[derive(Clone, Copy, Debug, PartialEq, Eq, Structural)]
pub struct GateAction {
    /// A new duty to set, if the barrier changes position.
    pub duty: Option<u8>,
    /// Power the servo on (`true`) or off (`false`), if that changes.
    pub servo: Option<bool>,
}

/// The abstract state of a [`Gate`].
pub struct GateModel {
    /// The window during which the barrier is open.
    pub open: TimerModel,
    /// The window during which the servo is powered.
    pub motion: TimerModel,
}

/// The duty for a change of the barrier's position.
pub open spec fn duty_for(edge: Option<bool>) -> Option<u8> {
    match edge {
        Some(true) => Some(DUTY_OPEN),
        Some(false) => Some(DUTY_CLOSED),
        None => None,
    }
}

/// One tick of the barrier: a sensing reopens the window, each edge of the
/// open window sets the duty and restarts the motion window, and each edge
/// of the motion window switches the servo's power.
pub open spec fn gate_step(g: GateModel, sensed: bool) -> (GateModel, GateAction) {
    let open = if sensed { timer_pulsed(g.open) } else { g.open };
    let edge = timer_event(open);
    let motion = if edge is Some { timer_pulsed(g.motion) } else { g.motion };
    (
        GateModel { open: timer_step(open), motion: timer_step(motion) },
        GateAction { duty: duty_for(edge), servo: timer_event(motion) },
    )
}

/// The state after `n` ticks with nothing sensed.
pub open spec fn gate_after_quiet(g: GateModel, n: nat) -> GateModel
    decreases n,
{
    if n == 0 {
        g
    } else {
        gate_after_quiet(gate_step(g, false).0, (n - 1) as nat)
    }
}

/// Both windows within their widths.
pub open spec fn gate_wf(g: GateModel) -> bool {
    timer_wf(g.open) && timer_wf(g.motion)
}

/// A gate at rest: both windows closed and reported closed.
pub open spec fn gate_idle(g: GateModel) -> bool {
    &&& !g.open.was_active
    &&& g.open.remaining == 0
    &&& !g.motion.was_active
    &&& g.motion.remaining == 0
}

/// What tick `i` of the run asks of the servo when a gate at rest senses a
/// vehicle on tick 0 only, with an open window of `w` and a motion window
/// of `k < w` ticks.
pub open spec fn cascade_action(w: nat, k: nat, i: nat) -> GateAction {
    if i == 0 {
        GateAction { duty: Some(DUTY_OPEN), servo: Some(true) }
    } else if i == k || i == w + k {
        GateAction { duty: None, servo: Some(false) }
    } else if i == w {
        GateAction { duty: Some(DUTY_CLOSED), servo: Some(true) }
    } else {
        GateAction { duty: None, servo: None }
    }
}

/// The state after tick `i` of that run.
pub open spec fn cascade_state(w: nat, k: nat, i: nat) -> GateModel {
    GateModel {
        open: TimerModel {
            was_active: i < w,
            remaining: if i < w { (w - 1 - i) as nat } else { 0 },
            width: w,
        },
        motion: if i < k {
            TimerModel { was_active: true, remaining: (k - 1 - i) as nat, width: k }
        } else if w <= i && i < w + k {
            TimerModel { was_active: true, remaining: (w + k - 1 - i) as nat, width: k }
        } else {
            TimerModel { was_active: false, remaining: 0, width: k }
        },
    }
}

/// The state after each tick of that run, by induction on the tick.
proof fn lemma_cascade_state(g: GateModel, i: nat)
    requires
        gate_idle(g),
        0 < g.motion.width < g.open.width,
    ensures
        gate_after_quiet(gate_step(g, true).0, i) == cascade_state(
            g.open.width,
            g.motion.width,
            i,
        ),
    decreases i,
{
    let g1 = gate_step(g, true).0;
    if i > 0 {
        lemma_cascade_state(g, (i - 1) as nat);
        lemma_quiet_last(g1, i);
    }
}

/// The last of `n` quiet ticks is one quiet step from the first `n - 1`.
proof fn lemma_quiet_last(g: GateModel, n: nat)
    requires
        n > 0,
    ensures
        gate_after_quiet(g, n) == gate_step(gate_after_quiet(g, (n - 1) as nat), false).0,
    decreases n,
{
    if n > 1 {
        lemma_quiet_last(gate_step(g, false).0, (n - 1) as nat);
    } else {
        assert(gate_after_quiet(gate_step(g, false).0, 0) == gate_step(g, false).0);
    }
}

/// A gate at rest that senses a vehicle once opens and powers the servo on
/// that tick, cuts the power when the motion window ends, closes and powers
/// the servo when the open window ends, and cuts the power once more; no
/// other tick asks anything of the servo.
pub proof fn lemma_gate_cascade(g: GateModel, i: nat)
    requires
        gate_idle(g),
        0 < g.motion.width < g.open.width,
    ensures
        gate_step(g, true).1 == cascade_action(g.open.width, g.motion.width, 0),
        gate_step(gate_after_quiet(gate_step(g, true).0, i), false).1 == cascade_action(
            g.open.width,
            g.motion.width,
            i + 1,
        ),
{
    lemma_cascade_state(g, i);
}

/// The barrier and its servo.
pub struct Gate {
    open: Timer,
    motion: Timer,
}

impl View for Gate {
    type V = GateModel;

    closed spec fn view(&self) -> GateModel {
        GateModel { open: self.open@, motion: self.motion@ }
    }
}

impl Gate {
    pub open spec fn wf(&self) -> bool {
        gate_wf(self@)
    }

    /// A gate at rest with the given window widths.
    pub fn new(open_ticks: u8, motion_ticks: u8) -> (r: Gate)
        ensures
            r.wf(),
            gate_idle(r@),
            r@.open.width == open_ticks as nat,
            r@.motion.width == motion_ticks as nat,
    {
        Gate { open: Timer::new(open_ticks), motion: Timer::new(motion_ticks) }
    }

    /// Advances one tick; `sensed` tells whether a vehicle is at the barrier.
    pub fn step(&mut self, sensed: bool) -> (r: GateAction)
        requires
            old(self).wf(),
        ensures
            final(self).wf(),
            (final(self)@, r) == gate_step(old(self)@, sensed),
    {
        if sensed {
            self.open.pulse();
        }
        let edge = self.open.tick();
        let duty = match edge {
            Some(opened) => {
                self.motion.pulse();
                if opened {
                    Some(DUTY_OPEN)
                } else {
                    Some(DUTY_CLOSED)
                }
            },
            None => None,
        };
        let servo = self.motion.tick();
        GateAction { duty, servo }
    }

    /// Whether the barrier is held open.
    pub fn is_open(&self) -> (r: bool)
        ensures
            r == self@.open.was_active,
    {
        self.open.was_active()
    }
}

} // verus!

//! A retriggerable one-shot countdown that reports edges of its active state.
use vstd::prelude::*;

verus! {

/// The abstract state of a [`Timer`].
pub struct TimerModel {
    /// Whether the timer was active on the previous tick.
    pub was_active: bool,
    /// Ticks of the active window still to run.
    pub remaining: nat,
    /// What `pulse` reloads `remaining` with.
    pub width: nat,
}

/// The timer is active on a tick when time remains at its start.
pub open spec fn is_active(m: TimerModel) -> bool {
    m.remaining > 0
}

/// The state after one tick.
pub open spec fn timer_step(m: TimerModel) -> TimerModel {
    TimerModel {
        was_active: is_active(m),
        remaining: if m.remaining > 0 { (m.remaining - 1) as nat } else { 0 },
        width: m.width,
    }
}

/// What one tick reports: the new active state when it differs from the last.
pub open spec fn timer_event(m: TimerModel) -> Option<bool> {
    if is_active(m) != m.was_active {
        Some(is_active(m))
    } else {
        None
    }
}

/// The state after a pulse: the window is reloaded to its full width.
pub open spec fn timer_pulsed(m: TimerModel) -> TimerModel {
    TimerModel { remaining: m.width, ..m }
}

/// The state after `n` ticks.
pub open spec fn timer_after(m: TimerModel, n: nat) -> TimerModel
    decreases n,
{
    if n == 0 {
        m
    } else {
        timer_after(timer_step(m), (n - 1) as nat)
    }
}

/// The countdown never holds more than the width it reloads to.
pub open spec fn timer_wf(m: TimerModel) -> bool {
    m.remaining <= m.width
}

/// `n > 0` ticks without a pulse: active on each tick while time remains,
/// and the countdown floors at zero.
pub proof fn lemma_timer_after(m: TimerModel, n: nat)
    requires
        n > 0,
    ensures
        timer_after(m, n) == (TimerModel {
            was_active: m.remaining >= n,
            remaining: if m.remaining >= n { (m.remaining - n) as nat } else { 0 },
            width: m.width,
        }),
    decreases n,
{
    assert(timer_after(m, n) == timer_after(timer_step(m), (n - 1) as nat));
    if n > 1 {
        lemma_timer_after(timer_step(m), (n - 1) as nat);
    } else {
        assert(timer_after(timer_step(m), 0) == timer_step(m));
    }
}

/// After a pulse of width `w > 0`, the first tick reports the rising edge
/// unless the timer was already active, the tick numbered `w` (counting from
/// zero) reports the falling edge, and no other tick reports anything.
pub proof fn lemma_pulse_window(m: TimerModel, i: nat)
    requires
        m.width > 0,
    ensures
        timer_event(timer_after(timer_pulsed(m), i)) == if i == 0 && !m.was_active {
            Some(true)
        } else if i == m.width {
            Some(false)
        } else {
            None::<bool>
        },
{
    if i > 0 {
        lemma_timer_after(timer_pulsed(m), i);
    }
}

/// A pulse while the window is open extends it in silence: the countdown
/// does not shrink, no falling edge comes before the full new width has run,
/// and an edge already reported is not reported again.
pub proof fn lemma_retrigger_extends(m: TimerModel, i: nat)
    requires
        timer_wf(m),
        m.remaining > 0,
    ensures
        timer_pulsed(m).remaining >= m.remaining,
        i < m.width ==> timer_event(timer_after(timer_pulsed(m), i)) != Some(false),
        i == m.width ==> timer_event(timer_after(timer_pulsed(m), i)) == Some(false),
        m.was_active ==> timer_event(timer_after(timer_pulsed(m), i)) != Some(true),
{
    lemma_pulse_window(m, i);
}

/// A one-shot countdown of fixed width, retriggered by `pulse`.
pub struct Timer {
    prev_res: bool,
    state: u8,
    reset: u8,
}

impl View for Timer {
    type V = TimerModel;

    closed spec fn view(&self) -> TimerModel {
        TimerModel {
            was_active: self.prev_res,
            remaining: self.state as nat,
            width: self.reset as nat,
        }
    }
}

impl Timer {
    /// The countdown never holds more than the width it was made with.
    pub open spec fn wf(&self) -> bool {
        timer_wf(self@)
    }

    /// An idle timer whose pulses last `reset` ticks.
    pub fn new(reset: u8) -> (r: Timer)
        ensures
            r.wf(),
            r@ == (TimerModel { was_active: false, remaining: 0, width: reset as nat }),
    {
        Timer { prev_res: false, state: 0, reset }
    }

    /// Advances one tick; returns the new active state if it changed.
    pub fn tick(&mut self) -> (r: Option<bool>)
        ensures
            final(self)@ == timer_step(old(self)@),
            r == timer_event(old(self)@),
            old(self).wf() ==> final(self).wf(),
    {
        let res = if self.state > 0 {
            self.state = self.state - 1;
            true
        } else {
            false
        };
        let changed = self.prev_res != res;
        self.prev_res = res;
        if changed {
            Some(res)
        } else {
            None
        }
    }

    /// Starts or extends the active window to its full width.
    pub fn pulse(&mut self)
        ensures
            final(self)@ == timer_pulsed(old(self)@),
            final(self).wf(),
    {
        self.state = self.reset;
    }

    /// Whether time remains in the active window.
    pub fn is_active(&self) -> (r: bool)
        ensures
            r == is_active(self@),
    {
        self.state > 0
    }

    /// Whether the last tick was active.
    pub fn was_active(&self) -> (r: bool)
        ensures
            r == self@.was_active,
    {
        self.prev_res
    }

    /// Ticks left in the active window.
    pub fn remaining(&self) -> (r: u8)
        ensures
            r as nat == self@.remaining,
    {
        self.state
    }
}

} // verus!

//! A three-aspect signal that cycles Green, Yellow, Red with fixed holds and
//! can be pushed forward in time by a pedestrian call.
use vstd::prelude::*;

verus! {

/// Ticks held in Green after entering it.
pub const GREEN_TIME: u8 = 70;

/// Ticks held in Yellow after entering it.
pub const YELLOW_TIME: u8 = 30;

/// Ticks held in Red after entering it.
pub const RED_TIME: u8 = 100;

/// The aspect a signal shows.
#[derive(Clone, Copy, Debug, PartialEq, Eq, Structural)]
pub enum Phase {
    Green,
    Yellow,
    Red,
}

/// The phase that follows `p` in the cycle Green, Yellow, Red, Green.
pub open spec fn next_phase(p: Phase) -> Phase {
    match p {
        Phase::Green => Phase::Yellow,
        Phase::Yellow => Phase::Red,
        Phase::Red => Phase::Green,
    }
}

/// The hold a phase is loaded with on entry.
pub open spec fn phase_duration(p: Phase) -> nat {
    match p {
        Phase::Green => GREEN_TIME as nat,
        Phase::Yellow => YELLOW_TIME as nat,
        Phase::Red => RED_TIME as nat,
    }
}

/// The three lamps of a signal.
#[derive(Clone, Copy, Debug, PartialEq, Eq, Structural)]
pub struct Lamps {
    pub red: bool,
    pub yellow: bool,
    pub green: bool,
}

/// The lamps lit in phase `p`: its own lamp, and no other.
pub open spec fn lamps_of(p: Phase) -> Lamps {
    Lamps { red: p == Phase::Red, yellow: p == Phase::Yellow, green: p == Phase::Green }
}

/// How many lamps are lit.
pub open spec fn lit_count(l: Lamps) -> int {
    (if l.red { 1int } else { 0 }) + (if l.yellow { 1int } else { 0 }) + (if l.green {
        1int
    } else {
        0
    })
}

/// The abstract state of a [`TrafficLight`].
pub struct LightModel {
    pub phase: Phase,
    /// Ticks left before the next phase is entered.
    pub remaining: nat,
}

/// The state right after entering phase `p`.
pub open spec fn entered(p: Phase) -> LightModel {
    LightModel { phase: p, remaining: phase_duration(p) }
}

/// The state after one tick: count down, or enter the next phase at zero.
pub open spec fn light_step(m: LightModel) -> LightModel {
    if m.remaining > 0 {
        LightModel { phase: m.phase, remaining: (m.remaining - 1) as nat }
    } else {
        entered(next_phase(m.phase))
    }
}

/// The state after `n` ticks.
pub open spec fn light_after(m: LightModel, n: nat) -> LightModel
    decreases n,
{
    if n == 0 {
        m
    } else {
        light_after(light_step(m), (n - 1) as nat)
    }
}

/// The state after consuming `amount` ticks at once: what the current phase
/// has left is used up first, then each entered phase's full hold.
pub open spec fn sped_up(m: LightModel, amount: nat) -> LightModel
    decreases amount, if m.remaining == 0 { 1nat } else { 0nat },
{
    if m.remaining >= amount {
        LightModel { phase: m.phase, remaining: (m.remaining - amount) as nat }
    } else {
        sped_up(entered(next_phase(m.phase)), (amount - m.remaining) as nat)
    }
}

/// The ticks one full cycle takes: each phase holds for its duration and
/// spends one more tick entering the next.
pub open spec fn cycle_ticks() -> nat {
    phase_duration(Phase::Green) + phase_duration(Phase::Yellow) + phase_duration(Phase::Red) + 3
}

/// Ticking `a` times and then `b` times is ticking `a + b` times.
pub proof fn lemma_light_after_add(m: LightModel, a: nat, b: nat)
    ensures
        light_after(m, a + b) == light_after(light_after(m, a), b),
    decreases a,
{
    if a > 0 {
        lemma_light_after_add(light_step(m), (a - 1) as nat, b);
        assert(light_after(m, a + b) == light_after(light_step(m), (a - 1 + b) as nat));
    }
}

/// A phase counts its remaining ticks down without changing aspect.
pub proof fn lemma_light_countdown(m: LightModel, k: nat)
    requires
        k <= m.remaining,
    ensures
        light_after(m, k) == (LightModel { phase: m.phase, remaining: (m.remaining - k) as nat }),
    decreases k,
{
    if k > 0 {
        lemma_light_countdown(light_step(m), (k - 1) as nat);
    }
}

/// A phase with `r` ticks remaining gives way to the next phase, with its
/// full hold, on tick `r + 1`; no phase is skipped.
pub proof fn lemma_phase_ends(m: LightModel)
    ensures
        light_after(m, m.remaining + 1) == entered(next_phase(m.phase)),
{
    lemma_light_countdown(m, m.remaining);
    lemma_light_after_add(m, m.remaining, 1);
    let z = light_after(m, m.remaining);
    assert(light_after(z, 1) == light_after(light_step(z), 0));
}

/// Every phase comes back, freshly entered, after one full cycle.
pub proof fn lemma_full_cycle(p: Phase)
    ensures
        light_after(entered(p), cycle_ticks()) == entered(p),
{
    let m0 = entered(p);
    let m1 = entered(next_phase(p));
    let m2 = entered(next_phase(next_phase(p)));
    let a = m0.remaining + 1;
    let b = m1.remaining + 1;
    let c = m2.remaining + 1;
    lemma_phase_ends(m0);
    lemma_phase_ends(m1);
    lemma_phase_ends(m2);
    lemma_light_after_add(m0, a, b);
    lemma_light_after_add(m0, a + b, c);
    assert(a + b + c == cycle_ticks());
}

/// A speedup that starts within the current phase's hold ends within the
/// hold of the phase it lands in.
pub proof fn lemma_speedup_within_hold(m: LightModel, amount: nat)
    requires
        m.remaining <= phase_duration(m.phase),
    ensures
        sped_up(m, amount).remaining <= phase_duration(sped_up(m, amount).phase),
    decreases amount, if m.remaining == 0 { 1nat } else { 0nat },
{
    if m.remaining < amount {
        lemma_speedup_within_hold(entered(next_phase(m.phase)), (amount - m.remaining) as nat);
    }
}

/// One signal's phase scheduler.
pub struct TrafficLight {
    phase: Phase,
    remaining: u8,
}

impl View for TrafficLight {
    type V = LightModel;

    closed spec fn view(&self) -> LightModel {
        LightModel { phase: self.phase, remaining: self.remaining as nat }
    }
}

impl TrafficLight {
    /// A signal in Green that moves on at its first tick.
    pub fn new() -> (r: TrafficLight)
        ensures
            r@ == (LightModel { phase: Phase::Green, remaining: 0 }),
    {
        TrafficLight { phase: Phase::Green, remaining: 0 }
    }

    /// A signal in `phase` with `remaining` ticks left before it moves on.
    pub fn starting_at(phase: Phase, remaining: u8) -> (r: TrafficLight)
        ensures
            r@ == (LightModel { phase, remaining: remaining as nat }),
    {
        TrafficLight { phase, remaining }
    }

    /// Enters the next phase with its full hold.
    pub fn advance(&mut self)
        ensures
            final(self)@ == entered(next_phase(old(self)@.phase)),
    {
        let (phase, hold) = match self.phase {
            Phase::Green => (Phase::Yellow, YELLOW_TIME),
            Phase::Yellow => (Phase::Red, RED_TIME),
            Phase::Red => (Phase::Green, GREEN_TIME),
        };
        self.phase = phase;
        self.remaining = hold;
    }

    /// Advances one tick.
    pub fn tick(&mut self)
        ensures
            final(self)@ == light_step(old(self)@),
            old(self)@.remaining <= phase_duration(old(self)@.phase) ==> final(self)@.remaining
                <= phase_duration(final(self)@.phase),
    {
        if self.remaining > 0 {
            self.remaining = self.remaining - 1;
            return;
        }
        self.advance();
    }

    /// Consumes `speedup` ticks at once, crossing as many phases as needed.
    pub fn force_speedup_by(&mut self, speedup: u8)
        ensures
            final(self)@ == sped_up(old(self)@, speedup as nat),
            speedup == 0 ==> final(self)@ == old(self)@,
            old(self)@.remaining <= phase_duration(old(self)@.phase) ==> final(self)@.remaining
                <= phase_duration(final(self)@.phase),
    {
        proof {
            if self@.remaining <= phase_duration(self@.phase) {
                lemma_speedup_within_hold(self@, speedup as nat);
            }
        }
        let mut left: u8 = speedup;
        loop
            invariant_except_break
                sped_up(self@, left as nat) == sped_up(old(self)@, speedup as nat),
            ensures
                self@ == sped_up(old(self)@, speedup as nat),
            decreases left, if self.remaining == 0 { 1nat } else { 0nat },
        {
            if self.remaining >= left {
                self.remaining = self.remaining - left;
                break;
            }
            left = left - self.remaining;
            self.advance();
        }
    }

    /// The phase shown.
    pub fn phase(&self) -> (r: Phase)
        ensures
            r == self@.phase,
    {
        self.phase
    }

    /// Ticks left before the next phase is entered.
    pub fn remaining(&self) -> (r: u8)
        ensures
            r as nat == self@.remaining,
    {
        self.remaining
    }

    /// The lamps to light: exactly one, that of the phase shown.
    pub fn lamps(&self) -> (r: Lamps)
        ensures
            r == lamps_of(self@.phase),
            lit_count(r) == 1,
    {
        Lamps {
            red: matches!(self.phase, Phase::Red),
            yellow: matches!(self.phase, Phase::Yellow),
            green: matches!(self.phase, Phase::Green),
        }
    }
}

} // verus!

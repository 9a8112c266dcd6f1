//! The lighting state machine.
//!
//! Pure scheduling and animation logic: from a state and the local hour
//! it computes the next state and at most one effect — a brightness value
//! to emit on the colour channel, or a delay to sleep.  An I/O shell runs
//! the loop: it performs the effect, and when the machine idles it waits
//! the machine's chosen interval and reads the clock before stepping.
//!
//! Brightness is fixed-point: [`crate::colour::BRIGHTNESS_SCALE`] stands
//! for full brightness.  A fade decays geometrically by the factor
//! one-fifth per frame until it falls below a small threshold, then snaps
//! to the target steady level.

use vstd::prelude::*;
use crate::colour::BRIGHTNESS_SCALE;
use vstd::arithmetic::div_mod::{
    lemma_div_is_ordered, lemma_div_pos_is_pos, lemma_fundamental_div_mod, lemma_mod_bound,
};
use vstd::arithmetic::mul::lemma_mul_inequality;

verus! {

/// Target steady state of the lights.
#[derive(Clone, Copy, Debug, PartialEq, Eq, Structural)]
pub enum Mode {
    /// The lights should be lit.
    On,
    /// The lights should be dark.
    Off,
}

/// The animation state of one supervision run.
#[derive(Debug)]
pub enum State {
    /// A fade toward the mode's steady level; the second field is the
    /// fade's remaining ramp, decaying geometrically toward zero.
    Fading(Mode, u16),
    /// Transient state that computes the fade's terminal level.
    Turning(Mode),
    /// Steady state; holds until the schedule or a command intervenes.
    Idle(Mode),
    /// Emit one brightness value, then become the carried state.
    SetColourThen(u16, Box<State>),
}

/// What one step of the machine asks the shell to do.
#[derive(Clone, Copy, Debug, PartialEq, Eq, Structural)]
pub enum Effect {
    /// Hand this brightness value to the colour distribution channel.
    EmitColour(u16),
    /// Sleep this many milliseconds.
    SleepMs(u64),
}

/// A fade ends once its ramp has decayed to this level or below.
pub const FADE_THRESHOLD: u16 = 80;

/// Divisor of the geometric fade decay: one-fifth per frame.
pub const FADE_DECAY_DIV: u16 = 5;

/// Delay between fade frames, in milliseconds.
pub const FADE_STEP_MS: u64 = 80;

/// A fade's very first frame is instantaneous; a ramp further than this
/// below the starting level is no longer the first frame.
pub const FIRST_FRAME_TOLERANCE: u16 = 10;

/// Normal idle polling interval: five minutes, in milliseconds.
pub const IDLE_POLL_MS: u64 = 300_000;

/// One-shot long idle interval after a manual override: three hours.
pub const LONG_IDLE_MS: u64 = 10_800_000;

/// Delay before a redundant re-confirmation of the current mode.
pub const RECONFIRM_MS: u64 = 300_000;

/// First hour of the day during which the lights should be on.
pub const DAY_START_HOUR: u8 = 8;

/// First hour of the evening from which the lights should be off.
pub const NIGHT_START_HOUR: u8 = 18;

/// One frame of geometric decay: a fifth of the ramp, truncated.
pub open spec fn spec_decay(raw: int) -> int {
    raw / 5
}

/// The level a fade displays for a given ramp: a fade toward On rises
/// from dark, a fade toward Off falls toward dark.
pub open spec fn spec_fade_level(mode: Mode, raw: int) -> int {
    match mode {
        Mode::On => 1000 - raw,
        Mode::Off => raw,
    }
}

/// What an idling machine does on waking at the given hour: during the
/// day it begins a fade to On if it was Off and otherwise re-arms a
/// redundant On confirmation after a delay; from the evening on, the
/// symmetric logic toward Off; before the day starts it re-arms the
/// current mode unchanged.
pub open spec fn spec_idle_step(mode: Mode, hour: int) -> (Option<Effect>, State) {
    if DAY_START_HOUR <= hour < NIGHT_START_HOUR {
        if mode is Off {
            (None, State::Fading(Mode::On, BRIGHTNESS_SCALE))
        } else {
            (Some(Effect::SleepMs(RECONFIRM_MS)), State::Turning(Mode::On))
        }
    } else if hour >= NIGHT_START_HOUR {
        if mode is On {
            (None, State::Fading(Mode::Off, BRIGHTNESS_SCALE))
        } else {
            (Some(Effect::SleepMs(RECONFIRM_MS)), State::Turning(Mode::Off))
        }
    } else {
        (Some(Effect::SleepMs(RECONFIRM_MS)), State::Turning(mode))
    }
}

/// Well-formedness of a state: every ramp and every carried brightness
/// level lies within the brightness scale.  States are clamped by
/// construction: commands start fades at full ramp, and decay only
/// shrinks it.
pub open spec fn spec_state_wf(s: State) -> bool
    decreases s,
{
    match s {
        State::Fading(_, raw) => raw <= BRIGHTNESS_SCALE,
        State::SetColourThen(x, next) => x <= BRIGHTNESS_SCALE && spec_state_wf(*next),
        _ => true,
    }
}

/// One transition of the machine: the effect the shell performs before
/// adopting the next state.
pub open spec fn spec_step(s: State, hour: int) -> (Option<Effect>, State) {
    match s {
        State::SetColourThen(x, next) => (Some(Effect::EmitColour(x)), *next),
        State::Fading(mode, raw) => if raw > FADE_THRESHOLD {
            (
                if raw < BRIGHTNESS_SCALE - FIRST_FRAME_TOLERANCE {
                    Some(Effect::SleepMs(FADE_STEP_MS))
                } else {
                    None
                },
                State::SetColourThen(
                    spec_decay(spec_fade_level(mode, raw as int)) as u16,
                    Box::new(State::Fading(mode, spec_decay(raw as int) as u16)),
                ),
            )
        } else {
            (None, State::Turning(mode))
        },
        State::Turning(mode) => match mode {
            Mode::On => (
                None,
                State::SetColourThen(BRIGHTNESS_SCALE, Box::new(State::Idle(Mode::On))),
            ),
            Mode::Off => (None, State::SetColourThen(0, Box::new(State::Idle(Mode::Off)))),
        },
        State::Idle(mode) => spec_idle_step(mode, hour),
    }
}

/// One transition, executably: returns the effect and leaves the next
/// state in place of the old one.
pub fn step_state(s: State, hour: u8) -> (r: (Option<Effect>, State))
    requires
        hour < 24,
        spec_state_wf(s),
    ensures
        r == spec_step(s, hour as int),
        spec_state_wf(r.1),
        r.0 matches Some(Effect::EmitColour(x)) ==> x <= BRIGHTNESS_SCALE,
{
    match s {
        State::SetColourThen(x, next) => {
            let n = *next;
            proof {
                assert(spec_state_wf(n));
            }
            (Some(Effect::EmitColour(x)), n)
        },
        State::Fading(mode, raw) => {
            if raw > FADE_THRESHOLD {
                let eff = if raw < BRIGHTNESS_SCALE - FIRST_FRAME_TOLERANCE {
                    Some(Effect::SleepMs(FADE_STEP_MS))
                } else {
                    None
                };
                let level = match mode {
                    Mode::On => BRIGHTNESS_SCALE - raw,
                    Mode::Off => raw,
                };
                proof {
                    lemma_div_is_ordered(level as int, 1000, 5);
                    lemma_div_is_ordered(raw as int, 1000, 5);
                    assert(spec_state_wf(State::Fading(mode, raw / FADE_DECAY_DIV)));
                }
                (
                    eff,
                    State::SetColourThen(
                        level / FADE_DECAY_DIV,
                        Box::new(State::Fading(mode, raw / FADE_DECAY_DIV)),
                    ),
                )
            } else {
                (None, State::Turning(mode))
            }
        },
        State::Turning(mode) => {
            proof {
                assert(spec_state_wf(State::Idle(Mode::On)));
                assert(spec_state_wf(State::Idle(Mode::Off)));
            }
            match mode {
                Mode::On => (
                    None,
                    State::SetColourThen(BRIGHTNESS_SCALE, Box::new(State::Idle(Mode::On))),
                ),
                Mode::Off => (None, State::SetColourThen(0, Box::new(State::Idle(Mode::Off)))),
            }
        },
        State::Idle(mode) => {
            if DAY_START_HOUR <= hour && hour < NIGHT_START_HOUR {
                match mode {
                    Mode::Off => (None, State::Fading(Mode::On, BRIGHTNESS_SCALE)),
                    Mode::On => (
                        Some(Effect::SleepMs(RECONFIRM_MS)),
                        State::Turning(Mode::On),
                    ),
                }
            } else if hour >= NIGHT_START_HOUR {
                match mode {
                    Mode::On => (None, State::Fading(Mode::Off, BRIGHTNESS_SCALE)),
                    Mode::Off => (
                        Some(Effect::SleepMs(RECONFIRM_MS)),
                        State::Turning(Mode::Off),
                    ),
                }
            } else {
                (Some(Effect::SleepMs(RECONFIRM_MS)), State::Turning(mode))
            }
        },
    }
}

/// Whether a brightness level lies outside the fade's ramp range.  The
/// level a fade emits never exceeds full brightness.
pub open spec fn spec_level_in_range(x: int) -> bool {
    0 <= x <= 1000
}

/// The machine of one supervision run: its current state and the
/// one-shot flag that stretches the first idle wait after a manual
/// override.
pub struct Machine {
    /// The current animation state.
    pub state: State,
    /// Whether the next idle wait is the long one; consumed once.
    pub long_wait: bool,
}

impl Machine {
    /// A machine's state stays within the brightness scale.
    pub open spec fn wf(self) -> bool {
        spec_state_wf(self.state)
    }

    /// A machine about to run from the given state.
    pub fn new(start: State, long_wait: bool) -> (m: Machine)
        requires
            spec_state_wf(start),
        ensures
            m.state == start,
            m.long_wait == long_wait,
            m.wf(),
    {
        Machine { state: start, long_wait }
    }

    /// Whether the machine idles, so that the shell must wait and read
    /// the clock before the next step.
    pub fn is_idle(&self) -> (b: bool)
        ensures
            b == (self.state is Idle),
    {
        match self.state {
            State::Idle(_) => true,
            _ => false,
        }
    }

    /// How long to wait before waking an idle machine: the long interval
    /// once after a manual override, the polling interval otherwise.
    pub fn idle_wait_ms(&mut self) -> (ms: u64)
        ensures
            ms == if old(self).long_wait {
                LONG_IDLE_MS
            } else {
                IDLE_POLL_MS
            },
            final(self).long_wait == false,
            final(self).state == old(self).state,
    {
        let ms = if self.long_wait {
            LONG_IDLE_MS
        } else {
            IDLE_POLL_MS
        };
        self.long_wait = false;
        ms
    }

    /// Advance the machine one transition at the given local hour.
    pub fn step(&mut self, hour: u8) -> (eff: Option<Effect>)
        requires
            hour < 24,
            old(self).wf(),
        ensures
            (eff, final(self).state) == spec_step(old(self).state, hour as int),
            final(self).long_wait == old(self).long_wait,
            final(self).wf(),
            eff matches Some(Effect::EmitColour(x)) ==> x <= BRIGHTNESS_SCALE,
    {
        let mut s = State::Turning(Mode::On);
        core::mem::swap(&mut s, &mut self.state);
        let (eff, next) = step_state(s, hour);
        self.state = next;
        eff
    }
}

impl State {
    /// Structural equality, so that the shell can log a transition
    /// exactly when the state actually changed.
    pub fn equals(&self, other: &State) -> (b: bool)
        ensures
            b == (self == other),
        decreases self,
    {
        match (self, other) {
            (State::Fading(m1, x1), State::Fading(m2, x2)) => *m1 == *m2 && *x1 == *x2,
            (State::Turning(m1), State::Turning(m2)) => *m1 == *m2,
            (State::Idle(m1), State::Idle(m2)) => *m1 == *m2,
            (State::SetColourThen(x1, n1), State::SetColourThen(x2, n2)) => *x1 == *x2 && (&**n1)
                .equals(&**n2),
            _ => false,
        }
    }

    /// An identical copy, so that the shell can keep the old state while
    /// the machine moves on.
    pub fn duplicate(&self) -> (c: State)
        ensures
            c == *self,
        decreases self,
    {
        match self {
            State::Fading(m, x) => State::Fading(*m, *x),
            State::Turning(m) => State::Turning(*m),
            State::Idle(m) => State::Idle(*m),
            State::SetColourThen(x, n) => State::SetColourThen(*x, Box::new((&**n).duplicate())),
        }
    }

    /// Whether every ramp and carried level lies within the brightness
    /// scale, so that a shell can check a state before seeding a machine
    /// with it.
    pub fn is_wf(&self) -> (b: bool)
        ensures
            b == spec_state_wf(*self),
        decreases self,
    {
        match self {
            State::Fading(_, raw) => *raw <= BRIGHTNESS_SCALE,
            State::Turning(_) => true,
            State::Idle(_) => true,
            State::SetColourThen(x, n) => *x <= BRIGHTNESS_SCALE && (&**n).is_wf(),
        }
    }
}

impl Clone for State {
    /// A clone is the same state.
    fn clone(&self) -> (c: State)
        ensures
            c == *self,
    {
        self.duplicate()
    }
}

/// The state `n` transitions after `s`, at a fixed hour.
pub open spec fn spec_step_n(s: State, hour: int, n: nat) -> State
    decreases n,
{
    if n == 0 {
        s
    } else {
        spec_step_n(spec_step(s, hour).1, hour, (n - 1) as nat)
    }
}

/// The brightness values the machine emits over its next `n` transitions
/// at a fixed hour, in emission order.
pub open spec fn spec_emits_n(s: State, hour: int, n: nat) -> Seq<u16>
    decreases n,
{
    if n == 0 {
        Seq::empty()
    } else {
        (match spec_step(s, hour).0 {
            Some(Effect::EmitColour(x)) => seq![x],
            _ => Seq::empty(),
        }) + spec_emits_n(spec_step(s, hour).1, hour, (n - 1) as nat)
    }
}

/// Number of decay frames a fade performs before its ramp falls to the
/// threshold.
pub open spec fn spec_fade_steps(raw: int) -> nat
    decreases raw,
{
    if raw > FADE_THRESHOLD {
        1 + spec_fade_steps(spec_decay(raw))
    } else {
        0
    }
}

/// While the ramp is above the threshold, each decay frame strictly
/// shrinks it, so a fade makes progress at every step.
pub proof fn lemma_fade_strictly_decreases(raw: int)
    requires
        raw > FADE_THRESHOLD,
    ensures
        0 <= spec_decay(raw) < raw,
{
}

/// A geometric decay by any factor strictly below one — `num / den` with
/// `0 < num < den` — strictly shrinks a positive ramp and never turns it
/// negative.  The fade loop therefore terminates for every such factor,
/// not only for the canonical fifth.
pub proof fn lemma_geometric_decay_decreases(raw: int, num: int, den: int)
    requires
        raw > 0,
        0 < num < den,
    ensures
        0 <= raw * num / den < raw,
{
    let q = raw * num / den;
    assert(raw * num >= 0) by (nonlinear_arith)
        requires
            raw > 0,
            num > 0,
    ;
    lemma_div_pos_is_pos(raw * num, den);
    lemma_fundamental_div_mod(raw * num, den);
    lemma_mod_bound(raw * num, den);
    lemma_mul_inequality(num, den - 1, raw);
    assert(num * raw == raw * num) by (nonlinear_arith);
    assert((den - 1) * raw == den * raw - raw) by (nonlinear_arith);
    if q >= raw {
        lemma_mul_inequality(raw, q, den);
        assert(raw * den == den * raw) by (nonlinear_arith);
        assert(q * den == den * q) by (nonlinear_arith);
    }
}

/// A fade that starts anywhere within the brightness range is over in at
/// most two decay frames.
pub proof fn lemma_fade_steps_bounded(raw: int)
    requires
        0 <= raw <= 1000,
    ensures
        spec_fade_steps(raw) <= 2,
{
    reveal_with_fuel(spec_fade_steps, 4);
    if raw > FADE_THRESHOLD {
        lemma_div_is_ordered(raw, 1000, 5);
        if spec_decay(raw) > FADE_THRESHOLD {
            lemma_div_is_ordered(spec_decay(raw), 200, 5);
        }
    }
}

/// Fade convergence: from `Fading(mode, raw)` the machine reaches
/// `Turning(mode)` after two transitions per decay frame — one that
/// schedules the frame's level, one that emits it — and one final
/// transition once the ramp is at the threshold, whatever the hour: a
/// running fade never consults the clock.
pub proof fn lemma_fade_converges(mode: Mode, raw: u16, hour: int)
    ensures
        spec_step_n(State::Fading(mode, raw), hour, 2 * spec_fade_steps(raw as int) + 1)
            == State::Turning(mode),
    decreases spec_fade_steps(raw as int),
{
    reveal_with_fuel(spec_step_n, 3);
    if raw > FADE_THRESHOLD {
        let raw2 = spec_decay(raw as int) as u16;
        assert(spec_fade_steps(raw as int) == 1 + spec_fade_steps(raw2 as int));
        lemma_fade_converges(mode, raw2, hour);
    }
}

/// Re-confirming On while already idle at On re-arms the machine and
/// emits full brightness again: three transitions return to the same
/// idle state and the one emitted value is the level already displayed.
pub proof fn lemma_turning_on_idempotent(hour: int)
    requires
        DAY_START_HOUR <= hour < NIGHT_START_HOUR,
    ensures
        spec_step_n(State::Idle(Mode::On), hour, 3) == State::Idle(Mode::On),
        spec_emits_n(State::Idle(Mode::On), hour, 3) == seq![BRIGHTNESS_SCALE],
{
    reveal_with_fuel(spec_step_n, 4);
    reveal_with_fuel(spec_emits_n, 4);
    assert(spec_emits_n(State::Idle(Mode::On), hour, 3) =~= seq![BRIGHTNESS_SCALE]);
}

} // verus!

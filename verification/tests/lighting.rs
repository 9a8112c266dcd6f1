use rgbman::colour::BRIGHTNESS_SCALE;
use rgbman::lighting::{
    Effect, IDLE_POLL_MS, LONG_IDLE_MS, Machine, Mode, RECONFIRM_MS, State, step_state,
};

/// Drive a machine until it idles, collecting every emitted brightness
/// value; panics if it takes more than `limit` transitions.
fn run_until_idle(machine: &mut Machine, hour: u8, limit: usize) -> Vec<u16> {
    let mut emitted = Vec::new();
    for _ in 0..limit {
        if machine.is_idle() {
            return emitted;
        }
        if let Some(Effect::EmitColour(x)) = machine.step(hour) {
            emitted.push(x);
        }
    }
    panic!("state machine did not reach idle within {limit} transitions");
}

#[test]
fn fade_on_emits_increasing_levels_and_idles() {
    // A manual /start_on at hour 10: the supervisor seeds a full fade
    // toward On with the long-wait flag set.
    let mut machine = Machine::new(State::Fading(Mode::On, BRIGHTNESS_SCALE), true);
    let emitted = run_until_idle(&mut machine, 10, 32);
    assert_eq!(emitted, vec![0, 160, 1000]);
    for w in emitted.windows(2) {
        assert!(w[0] < w[1]);
    }
    assert!(machine.state.equals(&State::Idle(Mode::On)));
    // The first idle wait is the long one; the flag is consumed.
    assert_eq!(machine.idle_wait_ms(), LONG_IDLE_MS);
    assert_eq!(machine.idle_wait_ms(), IDLE_POLL_MS);
}

#[test]
fn fade_off_emits_decreasing_levels_and_idles() {
    let mut machine = Machine::new(State::Fading(Mode::Off, BRIGHTNESS_SCALE), false);
    let emitted = run_until_idle(&mut machine, 20, 32);
    assert_eq!(emitted, vec![200, 40, 0]);
    assert!(machine.state.equals(&State::Idle(Mode::Off)));
    assert_eq!(machine.idle_wait_ms(), IDLE_POLL_MS);
}

#[test]
fn fade_first_frame_is_instantaneous() {
    // At full ramp the first frame happens without the inter-frame delay.
    let (eff, next) = step_state(State::Fading(Mode::On, BRIGHTNESS_SCALE), 10);
    assert_eq!(eff, None);
    assert!(next.equals(&State::SetColourThen(
        0,
        Box::new(State::Fading(Mode::On, 200))
    )));
    // Later frames sleep between updates.
    let (eff, next) = step_state(State::Fading(Mode::On, 200), 10);
    assert_eq!(eff, Some(Effect::SleepMs(80)));
    assert!(next.equals(&State::SetColourThen(
        160,
        Box::new(State::Fading(Mode::On, 40))
    )));
    // At the threshold the fade snaps to its terminal state.
    let (eff, next) = step_state(State::Fading(Mode::On, 40), 10);
    assert_eq!(eff, None);
    assert!(next.equals(&State::Turning(Mode::On)));
}

#[test]
fn idle_on_during_day_reconfirms_without_colour_change() {
    // Already On during the day: re-arm after a delay and emit full
    // brightness again, value-equal to what is already displayed.
    let mut machine = Machine::new(State::Idle(Mode::On), false);
    let eff = machine.step(10);
    assert_eq!(eff, Some(Effect::SleepMs(RECONFIRM_MS)));
    assert!(machine.state.equals(&State::Turning(Mode::On)));
    let eff = machine.step(10);
    assert_eq!(eff, None);
    let eff = machine.step(10);
    assert_eq!(eff, Some(Effect::EmitColour(BRIGHTNESS_SCALE)));
    assert!(machine.state.equals(&State::Idle(Mode::On)));
}

#[test]
fn idle_off_during_day_starts_fade_on() {
    let mut machine = Machine::new(State::Idle(Mode::Off), false);
    let eff = machine.step(8);
    assert_eq!(eff, None);
    assert!(machine.state.equals(&State::Fading(Mode::On, BRIGHTNESS_SCALE)));
}

#[test]
fn idle_on_in_evening_starts_fade_off() {
    let mut machine = Machine::new(State::Idle(Mode::On), false);
    let eff = machine.step(18);
    assert_eq!(eff, None);
    assert!(machine.state.equals(&State::Fading(Mode::Off, BRIGHTNESS_SCALE)));
}

#[test]
fn idle_off_in_evening_reconfirms_off() {
    let mut machine = Machine::new(State::Idle(Mode::Off), false);
    let eff = machine.step(23);
    assert_eq!(eff, Some(Effect::SleepMs(RECONFIRM_MS)));
    assert!(machine.state.equals(&State::Turning(Mode::Off)));
}

#[test]
fn idle_before_day_keeps_current_mode() {
    let mut machine = Machine::new(State::Idle(Mode::Off), false);
    let eff = machine.step(3);
    assert_eq!(eff, Some(Effect::SleepMs(RECONFIRM_MS)));
    assert!(machine.state.equals(&State::Turning(Mode::Off)));

    let mut machine = Machine::new(State::Idle(Mode::On), false);
    let eff = machine.step(7);
    assert_eq!(eff, Some(Effect::SleepMs(RECONFIRM_MS)));
    assert!(machine.state.equals(&State::Turning(Mode::On)));
}

#[test]
fn turning_emits_terminal_levels() {
    let (eff, next) = step_state(State::Turning(Mode::On), 0);
    assert_eq!(eff, None);
    assert!(next.equals(&State::SetColourThen(
        BRIGHTNESS_SCALE,
        Box::new(State::Idle(Mode::On))
    )));
    let (eff, next) = step_state(State::Turning(Mode::Off), 0);
    assert_eq!(eff, None);
    assert!(next.equals(&State::SetColourThen(0, Box::new(State::Idle(Mode::Off)))));
}

#[test]
fn state_equality_distinguishes_states() {
    let a = State::SetColourThen(5, Box::new(State::Idle(Mode::On)));
    let b = State::SetColourThen(5, Box::new(State::Idle(Mode::On)));
    let c = State::SetColourThen(5, Box::new(State::Idle(Mode::Off)));
    assert!(a.equals(&b));
    assert!(!a.equals(&c));
    assert!(!a.equals(&State::Idle(Mode::On)));
    assert!(a.equals(&a.duplicate()));
}

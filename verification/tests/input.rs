use rocket_game::audio::{Audio, BOOST_INTERVAL};
use rocket_game::user::{handle_input, InputState, Key, KeyAction, Throttle};

fn pressed(state: &InputState) -> (bool, bool, bool, bool) {
    (
        state.up_pressed(),
        state.down_pressed(),
        state.left_pressed(),
        state.right_pressed(),
    )
}

#[test]
fn new_state_has_nothing_pressed() {
    assert_eq!(pressed(&InputState::new()), (false, false, false, false));
    assert_eq!(pressed(&InputState::default()), (false, false, false, false));
}

#[test]
fn setters_latch_their_own_key_only() {
    let mut state = InputState::new();
    state.set_up_state(true);
    assert_eq!(pressed(&state), (true, false, false, false));
    state.set_down_state(true);
    assert_eq!(pressed(&state), (true, true, false, false));
    state.set_left_state(true);
    assert_eq!(pressed(&state), (true, true, true, false));
    state.set_right_state(true);
    assert_eq!(pressed(&state), (true, true, true, true));
    state.set_up_state(false);
    assert_eq!(pressed(&state), (false, true, true, true));
    state.set_down_state(false);
    assert_eq!(pressed(&state), (false, false, true, true));
    state.set_left_state(false);
    assert_eq!(pressed(&state), (false, false, false, true));
    state.set_right_state(false);
    assert_eq!(pressed(&state), (false, false, false, false));
}

#[test]
fn qwerty_keys_latch_directions() {
    let mut state = InputState::new();
    assert_eq!(state.handle_key(Key::W, true), KeyAction::Nothing);
    assert_eq!(pressed(&state), (true, false, false, false));
    assert_eq!(state.handle_key(Key::S, true), KeyAction::Nothing);
    assert_eq!(pressed(&state), (true, true, false, false));
    assert_eq!(state.handle_key(Key::A, true), KeyAction::Nothing);
    assert_eq!(pressed(&state), (true, true, true, false));
    assert_eq!(state.handle_key(Key::D, true), KeyAction::Nothing);
    assert_eq!(pressed(&state), (true, true, true, true));
    assert_eq!(state.handle_key(Key::W, false), KeyAction::Nothing);
    assert_eq!(pressed(&state), (false, true, true, true));
}

#[test]
fn dvorak_keys_latch_directions() {
    let mut state = InputState::new();
    state.handle_key(Key::Comma, true);
    assert_eq!(pressed(&state), (true, false, false, false));
    state.handle_key(Key::O, true);
    assert_eq!(pressed(&state), (true, true, false, false));
    state.handle_key(Key::E, true);
    assert_eq!(pressed(&state), (true, true, false, true));
    state.handle_key(Key::Comma, false);
    state.handle_key(Key::O, false);
    state.handle_key(Key::E, false);
    assert_eq!(pressed(&state), (false, false, false, false));
}

#[test]
fn space_shoots_when_it_goes_down_only() {
    let mut state = InputState::new();
    assert_eq!(state.handle_key(Key::Space, true), KeyAction::Shoot);
    assert_eq!(state.handle_key(Key::Space, false), KeyAction::Nothing);
    assert_eq!(pressed(&state), (false, false, false, false));
}

#[test]
fn escape_quits_when_it_goes_down_only() {
    let mut state = InputState::new();
    assert_eq!(state.handle_key(Key::Escape, true), KeyAction::Quit);
    assert_eq!(state.handle_key(Key::Escape, false), KeyAction::Nothing);
}

#[test]
fn other_keys_change_nothing() {
    let mut state = InputState::new();
    state.set_left_state(true);
    assert_eq!(state.handle_key(Key::Other, true), KeyAction::Nothing);
    assert_eq!(state.handle_key(Key::Other, false), KeyAction::Nothing);
    assert_eq!(pressed(&state), (false, false, true, false));
}

#[test]
fn idle_keys_release_the_throttle() {
    let input = InputState::new();
    let mut audio = Audio::new();
    for _ in 0..3 * BOOST_INTERVAL {
        let steer = handle_input(&input, &mut audio);
        assert_eq!(steer.throttle, Throttle::Release);
        assert!(!steer.brake && !steer.turn_left && !steer.turn_right);
        assert_eq!(steer.boost, None);
    }
    // The idle ticks did not count towards the next boost sound.
    for _ in 0..BOOST_INTERVAL - 1 {
        assert_eq!(audio.play_boost(), None);
    }
    assert!(audio.play_boost().is_some());
}

#[test]
fn held_keys_steer_the_camera() {
    let mut input = InputState::new();
    input.set_up_state(true);
    input.set_down_state(true);
    input.set_right_state(true);
    let mut audio = Audio::new();
    let steer = handle_input(&input, &mut audio);
    assert_eq!(steer.throttle, Throttle::Accelerate);
    assert!(steer.brake);
    assert!(!steer.turn_left);
    assert!(steer.turn_right);
    assert_eq!(steer.boost, None);
}

#[test]
fn holding_up_sounds_the_boost_every_eighth_tick() {
    let mut input = InputState::new();
    input.set_up_state(true);
    let mut audio = Audio::new();
    for tick in 1..=40usize {
        let steer = handle_input(&input, &mut audio);
        assert_eq!(steer.boost.is_some(), tick % BOOST_INTERVAL == 0);
    }
}

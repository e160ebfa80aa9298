//! Latched keyboard state, the keys that drive it, and what the held keys
//! ask of the camera.

use vstd::prelude::*;
use crate::audio::{boost_due, boost_sample, next_interval, Audio, Sample};

verus! {

/// Which of the four direction keys are held down.
pub struct Pressed {
    pub up: bool,
    pub down: bool,
    pub left: bool,
    pub right: bool,
}

/// The direction keys as they were last reported by the window.
#[derive(Debug)]
pub struct InputState {
    up: bool,
    down: bool,
    left: bool,
    right: bool,
}

impl View for InputState {
    type V = Pressed;

    closed spec fn view(&self) -> Pressed {
        Pressed { up: self.up, down: self.down, left: self.left, right: self.right }
    }
}

impl Default for InputState {
    fn default() -> (state: Self)
        ensures
            state@ == (Pressed { up: false, down: false, left: false, right: false }),
    {
        InputState::new()
    }
}

impl InputState {
    /// Instantiate a new keyboard state with nothing pressed.
    pub fn new() -> (state: Self)
        ensures
            state@ == (Pressed { up: false, down: false, left: false, right: false }),
    {
        Self { up: false, down: false, left: false, right: false }
    }

    /// Set the up key as pressed.
    pub fn set_up_state(&mut self, pressed: bool)
        ensures
            final(self)@ == (Pressed { up: pressed, ..old(self)@ }),
    {
        self.up = pressed;
    }

    /// Get whether the up key is pressed or not.
    pub fn up_pressed(&self) -> (pressed: bool)
        ensures
            pressed == self@.up,
    {
        self.up
    }

    /// Set the down key as pressed.
    pub fn set_down_state(&mut self, pressed: bool)
        ensures
            final(self)@ == (Pressed { down: pressed, ..old(self)@ }),
    {
        self.down = pressed;
    }

    /// Get whether the down key is pressed or not.
    pub fn down_pressed(&self) -> (pressed: bool)
        ensures
            pressed == self@.down,
    {
        self.down
    }

    /// Set the left key as pressed.
    pub fn set_left_state(&mut self, pressed: bool)
        ensures
            final(self)@ == (Pressed { left: pressed, ..old(self)@ }),
    {
        self.left = pressed;
    }

    /// Get whether the left key is pressed or not.
    pub fn left_pressed(&self) -> (pressed: bool)
        ensures
            pressed == self@.left,
    {
        self.left
    }

    /// Set the right key as pressed.
    pub fn set_right_state(&mut self, pressed: bool)
        ensures
            final(self)@ == (Pressed { right: pressed, ..old(self)@ }),
    {
        self.right = pressed;
    }

    /// Get whether the right key is pressed or not.
    pub fn right_pressed(&self) -> (pressed: bool)
        ensures
            pressed == self@.right,
    {
        self.right
    }

    /// Take in one key event from the window: latch a direction key, and
    /// say what else the event asks for.
    pub fn handle_key(&mut self, key: Key, pressed: bool) -> (action: KeyAction)
        ensures
            final(self)@ == latched(old(self)@, key, pressed),
            action == key_action(key, pressed),
    {
        match key {
            Key::W | Key::Comma => {
                self.set_up_state(pressed);
                KeyAction::Nothing
            },
            Key::A => {
                self.set_left_state(pressed);
                KeyAction::Nothing
            },
            Key::S | Key::O => {
                self.set_down_state(pressed);
                KeyAction::Nothing
            },
            Key::D | Key::E => {
                self.set_right_state(pressed);
                KeyAction::Nothing
            },
            Key::Space => {
                if pressed {
                    KeyAction::Shoot
                } else {
                    KeyAction::Nothing
                }
            },
            Key::Escape => {
                if pressed {
                    KeyAction::Quit
                } else {
                    KeyAction::Nothing
                }
            },
            Key::Other => KeyAction::Nothing,
        }
    }
}

/// The keys the game tells apart. The direction keys are recognised on a
/// QWERTY layout (W, A, S, D) and on a Dvorak layout (comma, A, O, E).
#[derive(Clone, Copy, Debug, PartialEq, Eq)]
pub enum Key {
    W,
    Comma,
    A,
    S,
    O,
    D,
    E,
    Space,
    Escape,
    Other,
}

/// Something a key event asks for besides latching a direction.
#[derive(Clone, Copy, Debug, PartialEq, Eq)]
pub enum KeyAction {
    Nothing,
    /// Fire a laser: `Space` went down.
    Shoot,
    /// Leave the game: `Escape` went down.
    Quit,
}

/// The direction latches after a key event.
pub open spec fn latched(before: Pressed, key: Key, pressed: bool) -> Pressed {
    match key {
        Key::W | Key::Comma => Pressed { up: pressed, ..before },
        Key::A => Pressed { left: pressed, ..before },
        Key::S | Key::O => Pressed { down: pressed, ..before },
        Key::D | Key::E => Pressed { right: pressed, ..before },
        _ => before,
    }
}

/// What a key event asks for: shooting and quitting happen when the key
/// goes down, never when it comes up.
pub open spec fn key_action(key: Key, pressed: bool) -> KeyAction {
    if pressed && key == Key::Space {
        KeyAction::Shoot
    } else if pressed && key == Key::Escape {
        KeyAction::Quit
    } else {
        KeyAction::Nothing
    }
}

/// How the camera's speed is to change in one tick.
#[derive(Clone, Copy, Debug, PartialEq, Eq)]
pub enum Throttle {
    /// Add one speed step, up to the top speed plus the boost.
    Accelerate,
    /// Let the speed fall back to the top speed without boost.
    Release,
}

/// What the held keys ask of the camera in one tick, in the order in which
/// the camera applies it: throttle, then brake, then the left turn, then the
/// right turn.
#[derive(Clone, Copy, Debug, PartialEq, Eq)]
pub struct Steering {
    pub throttle: Throttle,
    /// Take one speed step off, down to standing still.
    pub brake: bool,
    /// Turn by one rotation step.
    pub turn_left: bool,
    /// Turn back by one rotation step.
    pub turn_right: bool,
    /// The boost sound to hand to the mixer, if one is due.
    pub boost: Option<Sample>,
}

/// What a set of held keys asks of the camera, for a boost throttle that
/// stands `since` requests after its last sound.
pub open spec fn steering(keys: Pressed, since: nat) -> Steering {
    Steering {
        throttle: if keys.up {
            Throttle::Accelerate
        } else {
            Throttle::Release
        },
        brake: keys.down,
        turn_left: keys.left,
        turn_right: keys.right,
        boost: if keys.up && boost_due(since) {
            Some(boost_sample())
        } else {
            None
        },
    }
}

/// Read the held keys for one camera tick. While the up key is held every
/// tick requests the boost sound, which the audio throttle thins out.
pub fn handle_input(input: &InputState, audio: &mut Audio) -> (steer: Steering)
    ensures
        steer == steering(input@, old(audio)@),
        final(audio)@ == if input@.up {
            next_interval(old(audio)@)
        } else {
            old(audio)@
        },
{
    let mut throttle = Throttle::Release;
    let mut boost = None;
    if input.up_pressed() {
        throttle = Throttle::Accelerate;
        boost = audio.play_boost();
    }
    Steering {
        throttle,
        brake: input.down_pressed(),
        turn_left: input.left_pressed(),
        turn_right: input.right_pressed(),
        boost,
    }
}

/// A direction key stays as it was set until the next event for that
/// direction: events for the other keys leave it alone.
pub proof fn lemma_latch_holds(before: Pressed, key: Key, pressed: bool)
    ensures
        !(key == Key::W || key == Key::Comma) ==> latched(before, key, pressed).up == before.up,
        !(key == Key::S || key == Key::O) ==> latched(before, key, pressed).down == before.down,
        key != Key::A ==> latched(before, key, pressed).left == before.left,
        !(key == Key::D || key == Key::E) ==> latched(before, key, pressed).right == before.right,
{
}

} // verus!

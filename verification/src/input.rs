//! What the keys and buttons are doing in the current frame.

use vstd::prelude::*;

verus! {

/// One key or button in one frame.
#[derive(Clone, Copy, PartialEq, Eq, Debug, Structural)]
pub struct ButtonState {
    /// It is down.
    pub pressed: bool,
    /// It went down in this frame.
    pub just_pressed: bool,
    /// It came up in this frame.
    pub just_released: bool,
}

/// The three mouse buttons.
#[derive(Clone, Copy, PartialEq, Eq, Debug, Structural)]
pub struct MouseInput {
    /// Shoots the web in the game; drags the selection in the editor.
    pub left: ButtonState,
    /// Draws the marquee.
    pub right: ButtonState,
    /// Pans the editor camera.
    pub middle: ButtonState,
}

/// The keys that the game and the editor listen to.
#[derive(Clone, Copy, PartialEq, Eq, Debug, Structural)]
pub struct KeyboardInput {
    /// Spawns a rectangle in the editor; held, restarts the game.
    pub r: ButtonState,
    /// Spawns an oval.
    pub c: ButtonState,
    /// Respawns the player from the editor.
    pub k: ButtonState,
    /// Saves the level.
    pub p: ButtonState,
    /// Moves the selection up.
    pub w: ButtonState,
    /// Moves the selection left.
    pub a: ButtonState,
    /// Moves the selection down.
    pub s: ButtonState,
    /// Moves the selection right.
    pub d: ButtonState,
    /// Turns the selection counter-clockwise.
    pub q: ButtonState,
    /// Turns the selection clockwise.
    pub e: ButtonState,
    /// Makes the selection taller.
    pub up: ButtonState,
    /// Makes the selection shorter.
    pub down: ButtonState,
    /// Makes the selection narrower.
    pub left: ButtonState,
    /// Makes the selection wider.
    pub right: ButtonState,
    /// Fine control; keeps the selection when a marquee is started.
    pub l_shift: ButtonState,
    /// Quits.
    pub escape: ButtonState,
}

impl ButtonState {
    pub open spec fn spec_idle() -> ButtonState {
        ButtonState { pressed: false, just_pressed: false, just_released: false }
    }

    /// Up, and not just released.
    #[verifier::when_used_as_spec(spec_idle)]
    pub fn idle() -> (r: ButtonState)
        ensures
            r == ButtonState::spec_idle(),
    {
        ButtonState { pressed: false, just_pressed: false, just_released: false }
    }

    pub open spec fn spec_held(self) -> bool {
        self.pressed && !self.just_pressed
    }

    /// Down since an earlier frame.
    #[verifier::when_used_as_spec(spec_held)]
    pub fn held(self) -> (r: bool)
        ensures
            r == self.spec_held(),
    {
        self.pressed && !self.just_pressed
    }
}

impl MouseInput {
    pub open spec fn spec_idle() -> MouseInput {
        MouseInput {
            left: ButtonState::spec_idle(),
            right: ButtonState::spec_idle(),
            middle: ButtonState::spec_idle(),
        }
    }

    /// No button is touched.
    #[verifier::when_used_as_spec(spec_idle)]
    pub fn idle() -> (r: MouseInput)
        ensures
            r == MouseInput::spec_idle(),
    {
        MouseInput { left: ButtonState::idle(), right: ButtonState::idle(), middle: ButtonState::idle() }
    }
}

impl KeyboardInput {
    pub open spec fn spec_idle() -> KeyboardInput {
        let i = ButtonState::spec_idle();
        KeyboardInput {
            r: i,
            c: i,
            k: i,
            p: i,
            w: i,
            a: i,
            s: i,
            d: i,
            q: i,
            e: i,
            up: i,
            down: i,
            left: i,
            right: i,
            l_shift: i,
            escape: i,
        }
    }

    /// No key is touched.
    #[verifier::when_used_as_spec(spec_idle)]
    pub fn idle() -> (r: KeyboardInput)
        ensures
            r == KeyboardInput::spec_idle(),
    {
        let i = ButtonState::idle();
        KeyboardInput {
            r: i,
            c: i,
            k: i,
            p: i,
            w: i,
            a: i,
            s: i,
            d: i,
            q: i,
            e: i,
            up: i,
            down: i,
            left: i,
            right: i,
            l_shift: i,
            escape: i,
        }
    }
}

} // verus!

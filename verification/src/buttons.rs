//! The state of the gamepad's six buttons.
use vstd::prelude::*;

verus! {

/// The gamepad bit of button 1.
pub const BUTTON_1: u8 = 1;

/// The gamepad bit of button 2.
pub const BUTTON_2: u8 = 2;

/// The gamepad bit of the left button.
pub const BUTTON_LEFT: u8 = 16;

/// The gamepad bit of the right button.
pub const BUTTON_RIGHT: u8 = 32;

/// The gamepad bit of the up button.
pub const BUTTON_UP: u8 = 64;

/// The gamepad bit of the down button.
pub const BUTTON_DOWN: u8 = 128;

/// One flag per button.
#[derive(Clone, Copy, Debug, PartialEq, Eq, Structural)]
pub struct Buttons {
    pub up: bool,
    pub down: bool,
    pub left: bool,
    pub right: bool,
    pub two: bool,
    pub one: bool,
}

/// No button set.
pub open spec fn no_buttons() -> Buttons {
    Buttons { up: false, down: false, left: false, right: false, two: false, one: false }
}

/// The buttons whose bits are set in `pad`.
pub open spec fn buttons_of(pad: u8) -> Buttons {
    Buttons {
        up: pad & BUTTON_UP != 0,
        down: pad & BUTTON_DOWN != 0,
        left: pad & BUTTON_LEFT != 0,
        right: pad & BUTTON_RIGHT != 0,
        two: pad & BUTTON_2 != 0,
        one: pad & BUTTON_1 != 0,
    }
}

/// A button pressed this frame is one held now that was not held the frame
/// before; in particular it is held.
pub proof fn lemma_pressed_this_frame(gamepad: u8, previous: u8)
    ensures
        buttons_of(gamepad & (gamepad ^ previous)).up == (gamepad & BUTTON_UP != 0 && previous & BUTTON_UP == 0),
        buttons_of(gamepad & (gamepad ^ previous)).down == (gamepad & BUTTON_DOWN != 0 && previous & BUTTON_DOWN == 0),
        buttons_of(gamepad & (gamepad ^ previous)).left == (gamepad & BUTTON_LEFT != 0 && previous & BUTTON_LEFT == 0),
        buttons_of(gamepad & (gamepad ^ previous)).right == (gamepad & BUTTON_RIGHT != 0 && previous & BUTTON_RIGHT == 0),
        buttons_of(gamepad & (gamepad ^ previous)).two == (gamepad & BUTTON_2 != 0 && previous & BUTTON_2 == 0),
        buttons_of(gamepad & (gamepad ^ previous)).one == (gamepad & BUTTON_1 != 0 && previous & BUTTON_1 == 0),
        buttons_of(gamepad & (gamepad ^ previous)).up ==> buttons_of(gamepad).up,
        buttons_of(gamepad & (gamepad ^ previous)).down ==> buttons_of(gamepad).down,
        buttons_of(gamepad & (gamepad ^ previous)).left ==> buttons_of(gamepad).left,
        buttons_of(gamepad & (gamepad ^ previous)).right ==> buttons_of(gamepad).right,
        buttons_of(gamepad & (gamepad ^ previous)).two ==> buttons_of(gamepad).two,
        buttons_of(gamepad & (gamepad ^ previous)).one ==> buttons_of(gamepad).one,
{
    let fresh = gamepad & (gamepad ^ previous);
    assert((fresh & 64u8 != 0) == (gamepad & 64u8 != 0 && previous & 64u8 == 0)) by (bit_vector)
        requires fresh == gamepad & (gamepad ^ previous);
    assert((fresh & 128u8 != 0) == (gamepad & 128u8 != 0 && previous & 128u8 == 0)) by (bit_vector)
        requires fresh == gamepad & (gamepad ^ previous);
    assert((fresh & 16u8 != 0) == (gamepad & 16u8 != 0 && previous & 16u8 == 0)) by (bit_vector)
        requires fresh == gamepad & (gamepad ^ previous);
    assert((fresh & 32u8 != 0) == (gamepad & 32u8 != 0 && previous & 32u8 == 0)) by (bit_vector)
        requires fresh == gamepad & (gamepad ^ previous);
    assert((fresh & 2u8 != 0) == (gamepad & 2u8 != 0 && previous & 2u8 == 0)) by (bit_vector)
        requires fresh == gamepad & (gamepad ^ previous);
    assert((fresh & 1u8 != 0) == (gamepad & 1u8 != 0 && previous & 1u8 == 0)) by (bit_vector)
        requires fresh == gamepad & (gamepad ^ previous);
}

} // verus!

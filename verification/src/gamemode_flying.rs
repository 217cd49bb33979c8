//! The choices of the flying mode that do not depend on where things are:
//! which way the ship turns, and whether landing was offered.
use vstd::prelude::*;

use crate::buttons::Buttons;
use crate::planets::Planet;

verus! {

/// Turning left or right.
#[derive(Clone, Copy, Debug, PartialEq, Eq, Structural)]
pub enum DirectionX {
    Left,
    Center,
    Right,
}

/// Turning down or up.
#[derive(Clone, Copy, Debug, PartialEq, Eq, Structural)]
pub enum DirectionY {
    Down,
    Center,
    Up,
}

impl DirectionX {
    /// The horizontal screen step of this direction: left is -1, right is 1.
    pub fn step(&self) -> (r: i32)
        ensures
            r == match *self {
                DirectionX::Left => -1int,
                DirectionX::Center => 0int,
                DirectionX::Right => 1int,
            },
    {
        match self {
            DirectionX::Left => -1,
            DirectionX::Center => 0,
            DirectionX::Right => 1,
        }
    }
}

impl DirectionY {
    /// The vertical screen step of this direction: down is 1, up is -1.
    pub fn step(&self) -> (r: i32)
        ensures
            r == match *self {
                DirectionY::Down => 1int,
                DirectionY::Center => 0int,
                DirectionY::Up => -1int,
            },
    {
        match self {
            DirectionY::Down => 1,
            DirectionY::Center => 0,
            DirectionY::Up => -1,
        }
    }
}

/// Where the ship is turning.
#[derive(Clone, Copy, Debug, PartialEq, Eq, Structural)]
pub struct Movement {
    pub delta_x: DirectionX,
    pub delta_y: DirectionY,
}

/// Whether a planet is near enough to land on.
pub enum FlyingMode {
    Flying,
    LandingPossible(Planet),
}

/// The index of the planet shown with a target, if any.
pub type PlanetTargeting = Option<usize>;

/// The turn the held buttons ask for. With button 1 or 2 held the arrows
/// mean something else and the ship goes straight; otherwise down wins over
/// up and right wins over left.
pub open spec fn movement_for(buttons: Buttons) -> Movement {
    if buttons.two || buttons.one {
        Movement { delta_x: DirectionX::Center, delta_y: DirectionY::Center }
    } else {
        Movement {
            delta_x: if buttons.right {
                DirectionX::Right
            } else if buttons.left {
                DirectionX::Left
            } else {
                DirectionX::Center
            },
            delta_y: if buttons.down {
                DirectionY::Down
            } else if buttons.up {
                DirectionY::Up
            } else {
                DirectionY::Center
            },
        }
    }
}

/// The arrows steer while neither button 1 nor 2 is held: right turns
/// right, left turns left unless right is held too, down turns down, up turns
/// up unless down is held too; with button 1 or 2 held the ship goes
/// straight.
pub proof fn lemma_arrows_steer(buttons: Buttons)
    ensures
        buttons.one || buttons.two ==> movement_for(buttons).delta_x == DirectionX::Center
            && movement_for(buttons).delta_y == DirectionY::Center,
        !buttons.one && !buttons.two ==> {
            &&& (movement_for(buttons).delta_x == DirectionX::Right <==> buttons.right)
            &&& (movement_for(buttons).delta_x == DirectionX::Left <==> buttons.left && !buttons.right)
            &&& (movement_for(buttons).delta_y == DirectionY::Down <==> buttons.down)
            &&& (movement_for(buttons).delta_y == DirectionY::Up <==> buttons.up && !buttons.down)
        },
{
}

/// Sets `movement` from the held buttons, and hands out the planet that may
/// be landed on, if any.
pub fn update_movement(movement: &mut Movement, current_flying_mode: &FlyingMode, buttons: &Buttons) -> (r: Option<Planet>)
    ensures
        *final(movement) == movement_for(*buttons),
        buttons.one || buttons.two ==> final(movement).delta_x == DirectionX::Center
            && final(movement).delta_y == DirectionY::Center,
        !buttons.one && !buttons.two ==> {
            &&& (final(movement).delta_x == DirectionX::Right <==> buttons.right)
            &&& (final(movement).delta_x == DirectionX::Left <==> buttons.left && !buttons.right)
            &&& (final(movement).delta_y == DirectionY::Down <==> buttons.down)
            &&& (final(movement).delta_y == DirectionY::Up <==> buttons.up && !buttons.down)
        },
        match *current_flying_mode {
            FlyingMode::Flying => r is None,
            FlyingMode::LandingPossible(planet) => r matches Some(p) && p@ == planet@,
        },
{
    movement.delta_x = DirectionX::Center;
    movement.delta_y = DirectionY::Center;
    if !buttons.two && !buttons.one {
        if buttons.up {
            movement.delta_y = DirectionY::Up;
        }
        if buttons.down {
            movement.delta_y = DirectionY::Down;
        }
        if buttons.left {
            movement.delta_x = DirectionX::Left;
        }
        if buttons.right {
            movement.delta_x = DirectionX::Right;
        }
    }
    if let FlyingMode::LandingPossible(planet) = current_flying_mode {
        Some(planet.clone())
    } else {
        None
    }
}

} // verus!

//! The second kind of planet's sprites: seen from space at four distances,
//! and its landscape seen from the ground.
use vstd::prelude::*;

use crate::planets::SPRITE_FLAGS;

verus! {

/// Which sprite is shown.
#[derive(Clone, Copy, Debug, PartialEq, Eq, Structural)]
pub enum Level {
    ONE,
    TWO,
    THREE,
    FOUR,
    LANDSCAPE,
}

/// Side in pixels of the landscape, which fills the screen.
pub const PLANET_LANDSCAPE_SIDE: u32 = 160;

/// The level for a distance rounded down to whole units: up to 1000 the
/// first, up to 2000 the second, up to 3000 the third, beyond that the fourth.
/// The landscape is never chosen by distance.
pub open spec fn level_at(distance: u32) -> Level {
    if distance <= 1000 {
        Level::ONE
    } else if distance <= 2000 {
        Level::TWO
    } else if distance <= 3000 {
        Level::THREE
    } else {
        Level::FOUR
    }
}

/// The side in pixels of the square sprite of a level.
pub open spec fn level_side(level: Level) -> u32 {
    match level {
        Level::ONE => 120,
        Level::TWO => 80,
        Level::THREE => 40,
        Level::FOUR => 12,
        Level::LANDSCAPE => PLANET_LANDSCAPE_SIDE,
    }
}

/// The level at which the planet at `distance` is drawn.
pub fn get_level(distance: u32) -> (r: Level)
    ensures
        r == level_at(distance),
{
    if distance <= 500 {
        Level::ONE
    } else if distance <= 1000 {
        Level::ONE
    } else if distance <= 2000 {
        Level::TWO
    } else if distance <= 3000 {
        Level::THREE
    } else {
        Level::FOUR
    }
}

/// Width of the sprite at `level`.
pub fn get_width(level: &Level) -> (r: u32)
    ensures
        r == level_side(*level),
{
    match level {
        Level::ONE => 120,
        Level::TWO => 80,
        Level::THREE => 40,
        Level::FOUR => 12,
        Level::LANDSCAPE => PLANET_LANDSCAPE_SIDE,
    }
}

/// Height of the sprite at `level`.
pub fn get_height(level: &Level) -> (r: u32)
    ensures
        r == level_side(*level),
{
    match level {
        Level::ONE => 120,
        Level::TWO => 80,
        Level::THREE => 40,
        Level::FOUR => 12,
        Level::LANDSCAPE => PLANET_LANDSCAPE_SIDE,
    }
}

/// Blit flags of the sprite at `level`: two bits per pixel throughout.
pub fn get_flags(level: &Level) -> (r: u32)
    ensures
        r == SPRITE_FLAGS,
{
    match level {
        Level::ONE => SPRITE_FLAGS,
        Level::TWO => SPRITE_FLAGS,
        Level::THREE => SPRITE_FLAGS,
        Level::FOUR => SPRITE_FLAGS,
        Level::LANDSCAPE => SPRITE_FLAGS,
    }
}

/// Draw colors for `level`: the landscape uses its own palette order.
pub fn get_colors(level: &Level) -> (r: u16)
    ensures
        r == (if *level == Level::LANDSCAPE {
            0x0432u16
        } else {
            0x0234u16
        }),
{
    match level {
        Level::LANDSCAPE => 0x0432,
        _ => 0x0234,
    }
}

} // verus!

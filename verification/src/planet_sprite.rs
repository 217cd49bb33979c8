//! A planet sprite sheet in five sizes.
use vstd::prelude::*;

use crate::planets::SPRITE_FLAGS;

verus! {

/// How close the planet is, in five steps.
#[derive(Clone, Copy, Debug, PartialEq, Eq, Structural)]
pub enum Level {
    ONE,
    TWO,
    THREE,
    FOUR,
    FIVE,
}

/// The level for a distance rounded down to whole units.
pub open spec fn level_at(distance: u32) -> Level {
    if distance <= 500 {
        Level::ONE
    } else if distance <= 1000 {
        Level::TWO
    } else if distance <= 2000 {
        Level::THREE
    } else if distance <= 3000 {
        Level::FOUR
    } else {
        Level::FIVE
    }
}

/// The side in pixels of the square sprite drawn at a level.
pub open spec fn level_side(level: Level) -> u32 {
    match level {
        Level::ONE => 160,
        Level::TWO => 120,
        Level::THREE => 80,
        Level::FOUR => 40,
        Level::FIVE => 12,
    }
}

/// The level at which the planet at `distance` (whole units, rounded down)
/// is drawn: up to 500, 1000, 2000 and 3000 the first four, beyond that the fifth.
pub fn get_level(distance: u32) -> (r: Level)
    ensures
        r == level_at(distance),
{
    if distance <= 500 {
        Level::ONE
    } else if distance <= 1000 {
        Level::TWO
    } else if distance <= 2000 {
        Level::THREE
    } else if distance <= 3000 {
        Level::FOUR
    } else {
        Level::FIVE
    }
}

/// Width of the sprite at `level`.
pub fn get_width(level: &Level) -> (r: u32)
    ensures
        r == level_side(*level),
{
    match level {
        Level::ONE => 160,
        Level::TWO => 120,
        Level::THREE => 80,
        Level::FOUR => 40,
        Level::FIVE => 12,
    }
}

/// Height of the sprite at `level`.
pub fn get_height(level: &Level) -> (r: u32)
    ensures
        r == level_side(*level),
{
    match level {
        Level::ONE => 160,
        Level::TWO => 120,
        Level::THREE => 80,
        Level::FOUR => 40,
        Level::FIVE => 12,
    }
}

/// Blit flags of the sprite at `level`: two bits per pixel at every level.
pub fn get_flags(level: &Level) -> (r: u32)
    ensures
        r == SPRITE_FLAGS,
{
    match level {
        Level::ONE => SPRITE_FLAGS,
        Level::TWO => SPRITE_FLAGS,
        Level::THREE => SPRITE_FLAGS,
        Level::FOUR => SPRITE_FLAGS,
        Level::FIVE => SPRITE_FLAGS,
    }
}

/// Draw colors of the planet.
pub fn get_colors() -> (r: u16)
    ensures
        r == 0x0234,
{
    0x0234
}

} // verus!

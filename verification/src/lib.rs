//! Trading, menu and input logic of a small space-trading game.
pub mod buttons;
pub mod game;
pub mod gamemode_flying;
pub mod gamemode_landed;
pub mod graphics;
pub mod items;
pub mod landed_menu;
pub mod landed_planet_view;
pub mod planet_sprite;
pub mod planets;
pub mod player;
pub mod stock;
pub mod utils;

//! A 2d game engine built with a focus on user-friendliness and speed.

pub mod color;
pub mod game;
pub mod interactive;
pub mod keycodes;
pub mod primitive_canvas;
pub mod sprite;
pub mod window;

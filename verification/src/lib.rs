//! Motion core of a 2D platformer character controller.
//!
//! Positions and velocities are fixed-point integers in subpixel units. One
//! frame runs the phases in a fixed order: horizontal input, jump, gravity,
//! position integration, collision along X, collision along Y, render sync.
//! Every phase is a function from plain values to plain values, so a game
//! loop reads the keyboard and the clock, calls the phases, and writes the
//! result to the screen.

pub mod animation;
pub mod collision;
pub mod frame;
pub mod gravity;
pub mod input;
pub mod jump;
pub mod movement;
pub mod player;
pub mod render;
pub mod units;

pub use crate::animation::{advance_frame, animate_sprite, AnimationTimer};
pub use crate::collision::{handle_x_collisions, handle_y_collisions};
pub use crate::frame::{FrameInput, FrameOutput, GameState};
pub use crate::gravity::apply_gravity;
pub use crate::input::{handle_input_x, HorizontalDrive};
pub use crate::jump::handle_jump;
pub use crate::movement::integrate_position;
pub use crate::player::{Player, Position};
pub use crate::render::{position_movement, DisplayTransform};

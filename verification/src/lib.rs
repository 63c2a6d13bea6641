//! The frame-update engine of a two-player Pong game.
//!
//! The game is one value, [`game::Pong`]. The host sets the table with
//! [`start`], tells the game of every key that goes down or up with
//! [`on_key`], and runs one frame per display refresh with
//! [`on_animation_frame`].
//!
//! The library reaches neither a graphics device nor a sound card. A frame
//! returns what it asks of the world, the sounds to play and the scores to
//! show, and the device calls that draw the table; the host carries them out
//! in order.
//!
//! Every coordinate is a whole number of millionths (see [`fixed`]), so that
//! each step of the game is an exact function of the table and the timestamp.
//! What a frame does is stated by [`game::frame`], and the laws that the game
//! obeys are proved of it.

pub mod audio;
pub mod fixed;
pub mod game;
pub mod geometry;
pub mod model;
pub mod opengl;
pub mod particles;

pub use crate::game::{on_animation_frame, on_key, start};

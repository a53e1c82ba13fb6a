//! A reflex-timing game as a verified library.
//!
//! A session walks through five states. After a start it waits for a random
//! delay, flashes a new colour, and measures how long the player takes to
//! react. After three to five such trials it reports the mean and the fastest
//! reaction.
//!
//! The session and its transitions are in [`model`], their mathematical
//! description in [`machine`], and what holds of every session in [`laws`].
//! [`palette`] holds the colour cycler and [`stats`] the summary figures.
//! [`game`] ties them to the system clock, which [`clock`] reads, and to the
//! random number generator.

mod chance;
pub mod clock;
pub mod game;
pub mod laws;
pub mod machine;
pub mod model;
pub mod palette;
pub mod stats;

pub use crate::game::{event, update, view};

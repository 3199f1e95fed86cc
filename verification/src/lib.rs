//! Eight-way movement of a single sprite, in exact arithmetic.
//!
//! Held keys give a direction of length zero or one, a frame's elapsed time
//! turns it into a displacement, and the displacement is added to the
//! sprite's position. Every quantity is a number of the form
//! `whole + diagonal / √2` with integer parts, so that a diagonal step is
//! exactly as long as a straight one and nothing is rounded.

pub mod input;
pub mod keyboard;
pub mod motion;
pub mod scene;
pub mod surd;

//! Status-clock core: a bounded history of wireless signal strength, the
//! rules that turn sensor readings into display values, and the renderer
//! that lays out one frame of draw operations for a monochrome display.
pub mod clock;
pub mod geometry;
pub mod reading;
pub mod render;
pub mod signal;
pub mod text;
pub mod tracker;

//! The core of a desktop companion: a small character that bounces on a
//! transparent overlay, reacts to hover and clicks, and talks through a timed
//! speech bubble.
//!
//! Everything here is integer arithmetic. Lengths are hundredths of a pixel,
//! times are nanoseconds, scale factors are tenths, and samples of the unit
//! sine wave are millionths. The host window samples input and the clock,
//! evaluates the sine the bounce asks for, and paints the shapes it gets back.

pub mod draw;
pub mod geometry;
pub mod history;
pub mod shape;
pub mod state;

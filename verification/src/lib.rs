//! Frame pacing and transform bookkeeping for a fixed-rate render loop.
//!
//! Every quantity is an exact integer: time is counted in nanoseconds, the
//! rotation angle is a phase inside one full turn, and the aspect ratio is a
//! pair of positive surface dimensions.

pub mod span;
pub mod clock;
pub mod viewport;
pub mod transform;
pub mod scheduler;
pub mod driver;

//! The phase of the Moon, computed from a timestamp.
//!
//! Lunar ages are exact: they are counted in nanoseconds, and every constant
//! of the model (the synodic month, the bounds of the phases) is a whole
//! number of nanoseconds.
pub mod age;
pub mod phase;
pub mod clock;
pub mod report;

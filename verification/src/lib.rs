//! The decision core of an instrument tuner.
//!
//! A tuner listens to a stream of samples, finds the strongest frequency in
//! the newest stretch of it, names the nearest note and says how far the
//! player is from the note they want. This crate holds every decision on
//! that way, with its contract:
//!
//! - [`buffer`]: gathering the stream and cutting overlapping windows;
//! - [`peak`]: the dominant bin of a magnitude spectrum, the detection
//!   floor, the guards around refinement and the pitch range;
//! - [`note`]: the chromatic sequence and the arithmetic between notes and
//!   semitones;
//! - [`state`]: the reading on display, the player's choices and the grade
//!   of a deviation;
//! - [`binary32`]: the order of single-precision numbers, read off their
//!   bit patterns.
//!
//! The crate computes in whole numbers only. The transform of a window into
//! a spectrum, and the arithmetic on frequencies, belong to the program
//! around it; numbers cross the border as bit patterns.

pub mod binary32;
pub mod buffer;
pub mod note;
pub mod peak;
pub mod state;

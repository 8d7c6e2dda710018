//! A countdown-timer engine: digit entry, carry-and-clamp normalisation of an
//! hours/minutes/seconds display, an Idle/Running/Paused/Finished state
//! machine driven by a monotonic clock, and a progress ratio for display.
//!
//! The engine performs no I/O. Every operation that depends on the clock takes
//! the current reading as an argument (milliseconds on a monotonic clock) and
//! answers with the effects its caller has to carry out.
//!
//! Two small games live beside it: guessing a number and typing words.

pub mod digits;
pub mod display;
pub mod guessing_game;
pub mod keys;
pub mod progress;
pub mod schedule;
pub mod session;
pub mod state;
pub mod time_spec;
pub mod timer;
pub mod typing_game;

//! Verified core of a synthetic daily-activity log generator.
//!
//! The library covers the calendar arithmetic, the validation of the run
//! configuration, and the month-text generation algorithm; file output
//! and command-line plumbing stay outside it.
pub mod calendar;
pub mod config;
pub mod generator;
mod rng;

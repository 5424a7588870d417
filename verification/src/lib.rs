//! Verified exercises from a tour of Rust, centred on a number-guessing
//! game: a loop that reads a line, parses it as a decimal integer, and
//! compares it against a fixed secret target until the two are equal.
//!
//! The game logic lives in [`game`]; the remaining modules hold the
//! smaller exercises, each verified against a contract that pins down
//! what it computes.

pub mod coins;
pub mod enums;
pub mod exercises;
pub mod functions;
pub mod game;
pub mod rectangles;
pub mod rectangles_improved;
pub mod references;
pub mod restaurant;
pub mod slices;
pub mod structs;
pub mod text;
pub mod tidy_restaurant;

//! A small character-terminal compositor with binary input-device decoders.
//!
//! The library holds the logic of a terminal mini-game: decoders that turn
//! raw device records into typed events, a drawable tree of named regions
//! rendered to absolute terminal coordinates, the ANSI cursor-positioning
//! text, and the per-tick state machine of the consumer loop. Reading the
//! device files, spawning the producer threads and writing to the terminal
//! are left to the surrounding program.

pub mod joystick;
pub mod keyboard;
pub mod terminal;
pub mod widget;
pub mod game;

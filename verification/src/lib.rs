//! Timed phase/state-machine core of a small grid-dodging arcade game.
//!
//! One authoritative countdown clock fans out into per-entity phase
//! timelines (board tiles rising and falling, lasers charging and firing)
//! and drives a top-level game state machine. All timelines read the same
//! clock, so choreography stays deterministic and free of drift. Time is
//! measured in whole milliseconds throughout.

pub mod board;
pub mod content;
pub mod countdown;
pub mod laser;
pub mod phases;
pub mod player;
pub mod state;

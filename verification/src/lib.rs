//! Progression and recovery logic for a small first-person collect-a-thon.
//!
//! The crate holds the pieces of the game with real state: the progression
//! controller that drives a collection counter and a countdown toward exactly
//! one terminal outcome, the dialogue sequencer that maps symbolic dialogue
//! identifiers to scripted steps and manages advancing and closing them, the
//! typewriter that reveals dialogue text one character at a time, and the
//! stable-ground recovery that remembers safe standing positions and teleports
//! a fallen body back to the most recent one.
//!
//! Scene assembly, rendering, audio playback and input binding live outside
//! this crate; it consumes plain values (millisecond deltas, fixed-point
//! physics readings, click events) and produces plain directives (spawn a
//! display, change a text, teleport a body).

pub mod dialogue;
pub mod progress;
pub mod stable_ground;
pub mod typewriter;

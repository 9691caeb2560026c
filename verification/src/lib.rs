//! A voice-command pipeline that coordinates two streaming audio
//! classification engines: a wake-word detector and an intent recognizer.
//!
//! The pipeline validates that the two engines agree on sample rate and
//! frame length, then dispatches fixed-length audio frames to one engine
//! or the other according to a two-state machine: scanning for the wake
//! word, or accumulating an utterance for intent inference.
//!
//! Alongside the coordinator, the crate provides the two frame sources
//! that feed it: slicing a pre-recorded sample stream into whole frames,
//! and buffering a live capture callback whose chunk sizes the hardware
//! chooses.  The acoustic engines themselves are native libraries behind
//! the [`engine`] traits; everything on this side of that boundary is
//! verified.

pub mod capture;
pub mod engine;
pub mod error;
pub mod frames;
pub mod pipeline;
pub mod platform;

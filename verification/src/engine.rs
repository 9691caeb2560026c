//! The capability boundary of the two acoustic engines.
//!
//! The engines are opaque native classifiers; the pipeline never looks
//! inside them.  Each exposes the fixed queries `sample_rate`,
//! `frame_length` and `version`, and a `process` call that consumes one
//! fixed-length frame of 16-bit samples and reports what the engine heard.
//! Nothing is assumed of those reports: every contract downstream holds
//! whatever values an implementation returns.

use vstd::prelude::*;
use crate::error::EngineError;

verus! {

/// The structured command the intent engine extracted from an utterance,
/// delivered once the engine reports the utterance finalized.
#[derive(Debug, Clone)]
pub struct RhinoInference {
    /// Whether the utterance matched the engine's command context at all.
    pub is_understood: bool,
    /// The recognized intent, present when the utterance was understood.
    pub intent: Option<String>,
    /// Slot name / slot value pairs extracted from the utterance.
    pub slots: Vec<(String, String)>,
}

/// A detector that scores successive fixed-length frames and reports which
/// configured trigger phrase, if any, just completed.
pub trait WakeWordEngine {
    /// The sample rate the engine expects, fixed at construction.
    fn sample_rate(&self) -> u32;

    /// The frame length the engine expects, fixed at construction.
    fn frame_length(&self) -> u32;

    /// The engine's version string, fixed at construction.
    fn version(&self) -> String;

    /// Scores one frame.  Returns the index of the keyword that completed
    /// on this frame, or a negative value when none did.
    fn process(&mut self, pcm: &[i16]) -> Result<i32, EngineError>;
}

/// A recognizer that accumulates successive fixed-length frames after a
/// trigger and reports, once the utterance is complete, the structured
/// command it extracted.
pub trait IntentEngine {
    /// The sample rate the engine expects, fixed at construction.
    fn sample_rate(&self) -> u32;

    /// The frame length the engine expects, fixed at construction.
    fn frame_length(&self) -> u32;

    /// The engine's version string, fixed at construction.
    fn version(&self) -> String;

    /// Accumulates one frame.  Returns true once the utterance is
    /// finalized; exactly one `get_inference` call must follow before the
    /// next `process` call.
    fn process(&mut self, pcm: &[i16]) -> Result<bool, EngineError>;

    /// Retrieves the inference for the utterance that just finalized.
    fn get_inference(&mut self) -> Result<RhinoInference, EngineError>;
}

} // verus!

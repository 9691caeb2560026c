//! The error taxonomy of the pipeline.
//!
//! Engine failures are reported by the engine that produced them; the
//! pipeline's own failure is the compatibility check at construction.

use vstd::prelude::*;

verus! {

/// A failure reported by one of the underlying acoustic engines: a rejected
/// credential, a missing or corrupt model file, a sensitivity out of range,
/// or a rejected frame.
#[derive(Debug, Clone)]
pub struct EngineError {
    pub message: String,
}

/// Everything that can go wrong while building or driving the pipeline.
#[derive(Debug)]
pub enum PicovoiceError {
    /// The intent engine failed.
    RhinoError(EngineError),
    /// The wake-word engine failed.
    PorcupineError(EngineError),
    /// The pipeline itself rejected its configuration: the two engines
    /// disagree on sample rate or frame length.
    LibraryError(String),
}

impl PicovoiceError {
    /// The text a caller should show for this error.
    pub open spec fn message_spec(&self) -> Seq<char> {
        match self {
            PicovoiceError::RhinoError(e) => e.message@,
            PicovoiceError::PorcupineError(e) => e.message@,
            PicovoiceError::LibraryError(m) => "Picovoice error: "@ + m@,
        }
    }

    pub fn from_rhino(rhino_err: EngineError) -> (r: Self)
        ensures
            r == PicovoiceError::RhinoError(rhino_err),
    {
        PicovoiceError::RhinoError(rhino_err)
    }

    pub fn from_porcupine(porcupine_err: EngineError) -> (r: Self)
        ensures
            r == PicovoiceError::PorcupineError(porcupine_err),
    {
        PicovoiceError::PorcupineError(porcupine_err)
    }

    /// Renders the error as the message a user sees.
    pub fn message(&self) -> (r: String)
        ensures
            r@ == self.message_spec(),
    {
        match self {
            PicovoiceError::RhinoError(e) => e.message.clone(),
            PicovoiceError::PorcupineError(e) => e.message.clone(),
            PicovoiceError::LibraryError(m) => {
                let prefix = String::from_str("Picovoice error: ");
                prefix.concat(m.as_str())
            },
        }
    }
}

} // verus!

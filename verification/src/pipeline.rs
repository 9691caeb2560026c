//! The two-engine pipeline coordinator.
//!
//! [`Picovoice`] owns a wake-word engine and an intent engine, checks once
//! at construction that they agree on sample rate and frame length, and
//! then dispatches every fixed-length frame to exactly one of them: to the
//! wake-word engine while scanning, to the intent engine while
//! accumulating an utterance.  Each `process` call returns the transition
//! event it observed, so a caller can react to a completed wake word or a
//! finalized inference.
//!
//! The engines are oracles: nothing is assumed about what they report.
//! The contracts therefore speak about the *reports*: a ghost log records
//! the report consumed by every `process` call, and the mode flag is
//! always exactly the state-machine run over that log.

use vstd::prelude::*;
use vstd::string::StringExecFns;
use crate::engine::{IntentEngine, RhinoInference, WakeWordEngine};
use crate::error::PicovoiceError;

verus! {

/// What one engine told the coordinator about one frame: the wake-word
/// engine reports the index of the keyword that completed (negative for
/// none), the intent engine reports whether the utterance finalized.
#[derive(Debug, Clone, Copy, PartialEq, Eq, Structural)]
pub enum EngineReport {
    Keyword { keyword_index: i32 },
    Utterance { is_finalized: bool },
}

/// The transition one `process` call produced.
#[derive(Debug)]
pub enum ProcessEvent {
    /// The frame advanced the active engine without completing anything.
    NoEvent,
    /// A scanning-state frame completed the tracked wake word.
    WakeWordDetected,
    /// An accumulating-state frame finalized the utterance; the inference
    /// the intent engine extracted is attached.
    InferenceFinalized(RhinoInference),
}

/// The kind of transition, without the inference payload; used to state
/// properties of whole report sequences.
#[derive(Debug, Clone, Copy, PartialEq, Eq, Structural)]
pub enum TransitionKind {
    Quiet,
    Wake,
    Inference,
}

/// Which engine a report came from must match the mode that consumed it:
/// scanning frames go to the wake-word engine, accumulating frames to the
/// intent engine.  The mode flag is `true` while accumulating.
pub open spec fn report_matches_mode(awaiting_intent: bool, rep: EngineReport) -> bool {
    match rep {
        EngineReport::Keyword { .. } => !awaiting_intent,
        EngineReport::Utterance { .. } => awaiting_intent,
    }
}

/// A scanning-state report fires the wake-word transition iff the engine
/// reported keyword index 0 — the single tracked keyword.
pub open spec fn wake_fires(awaiting_intent: bool, rep: EngineReport) -> bool {
    &&& !awaiting_intent
    &&& rep matches EngineReport::Keyword { keyword_index } && keyword_index == 0
}

/// An accumulating-state report fires the inference transition iff the
/// engine reported the utterance finalized.
pub open spec fn inference_fires(awaiting_intent: bool, rep: EngineReport) -> bool {
    &&& awaiting_intent
    &&& rep matches EngineReport::Utterance { is_finalized } && is_finalized
}

/// The mode after consuming one report.
pub open spec fn step_mode(awaiting_intent: bool, rep: EngineReport) -> bool {
    match rep {
        EngineReport::Keyword { keyword_index } => {
            if !awaiting_intent {
                keyword_index == 0
            } else {
                awaiting_intent
            }
        },
        EngineReport::Utterance { is_finalized } => {
            if awaiting_intent {
                !is_finalized
            } else {
                awaiting_intent
            }
        },
    }
}

/// The transition one report produces in a given mode.
pub open spec fn step_event(awaiting_intent: bool, rep: EngineReport) -> TransitionKind {
    if wake_fires(awaiting_intent, rep) {
        TransitionKind::Wake
    } else if inference_fires(awaiting_intent, rep) {
        TransitionKind::Inference
    } else {
        TransitionKind::Quiet
    }
}

/// The mode after running the state machine over a whole report log.
pub open spec fn mode_after(init: bool, log: Seq<EngineReport>) -> bool
    decreases log.len(),
{
    if log.len() == 0 {
        init
    } else {
        step_mode(mode_after(init, log.drop_last()), log.last())
    }
}

/// The transition produced at each position of a report log.
pub open spec fn events_of(init: bool, log: Seq<EngineReport>) -> Seq<TransitionKind>
    decreases log.len(),
{
    if log.len() == 0 {
        Seq::empty()
    } else {
        events_of(init, log.drop_last()).push(
            step_event(mode_after(init, log.drop_last()), log.last()),
        )
    }
}

/// Every report in the log came from the engine that the mode at that
/// point selects.
pub open spec fn consistent_log(init: bool, log: Seq<EngineReport>) -> bool {
    forall|i: int|
        0 <= i < log.len() ==> report_matches_mode(
            mode_after(init, #[trigger] log.take(i)),
            log[i],
        )
}

/// Extending a consistent log by one mode-matching report keeps it
/// consistent, steps the mode, and appends exactly one transition.
pub proof fn lemma_log_push(init: bool, log: Seq<EngineReport>, rep: EngineReport)
    requires
        consistent_log(init, log),
        report_matches_mode(mode_after(init, log), rep),
    ensures
        consistent_log(init, log.push(rep)),
        mode_after(init, log.push(rep)) == step_mode(mode_after(init, log), rep),
        events_of(init, log.push(rep)) =~= events_of(init, log).push(
            step_event(mode_after(init, log), rep),
        ),
{
    assert(log.push(rep).drop_last() =~= log);
    assert forall|i: int| 0 <= i < log.push(rep).len() implies report_matches_mode(
        mode_after(init, #[trigger] log.push(rep).take(i)),
        log.push(rep)[i],
    ) by {
        if i < log.len() {
            assert(log.push(rep).take(i) =~= log.take(i));
            assert(report_matches_mode(mode_after(init, log.take(i)), log[i]));
        } else {
            assert(log.push(rep).take(i) =~= log);
        }
    }
}

/// The length of the transition sequence matches the log.
pub proof fn lemma_events_len(init: bool, log: Seq<EngineReport>)
    ensures
        events_of(init, log).len() == log.len(),
    decreases log.len(),
{
    if log.len() > 0 {
        lemma_events_len(init, log.drop_last());
    }
}

/// State-machine correctness over any report sequence: the wake transition
/// stands at position `i` iff the mode before `i` was scanning and the
/// report was keyword index 0, and the inference transition stands at `i`
/// iff the mode before `i` was accumulating and the report was finalized.
/// Each position carries exactly one [`TransitionKind`], so no transition
/// fires more than once per qualifying frame.
pub proof fn lemma_event_characterization(init: bool, log: Seq<EngineReport>, i: int)
    requires
        0 <= i < log.len(),
    ensures
        events_of(init, log).len() == log.len(),
        events_of(init, log)[i] == step_event(mode_after(init, log.take(i)), log[i]),
        events_of(init, log)[i] is Wake <==> wake_fires(mode_after(init, log.take(i)), log[i]),
        events_of(init, log)[i] is Inference <==> inference_fires(
            mode_after(init, log.take(i)),
            log[i],
        ),
    decreases log.len(),
{
    lemma_events_len(init, log);
    if i == log.len() - 1 {
        assert(log.take(i) =~= log.drop_last());
        lemma_events_len(init, log.drop_last());
    } else {
        lemma_event_characterization(init, log.drop_last(), i);
        assert(log.drop_last().take(i) =~= log.take(i));
        lemma_events_len(init, log.drop_last());
    }
}

/// Running the machine over `s + t` is running it over `s`, then over `t`
/// from the mode `s` left behind.
pub proof fn lemma_run_append(init: bool, s: Seq<EngineReport>, t: Seq<EngineReport>)
    ensures
        mode_after(init, s + t) == mode_after(mode_after(init, s), t),
        events_of(init, s + t) =~= events_of(init, s) + events_of(mode_after(init, s), t),
    decreases t.len(),
{
    if t.len() == 0 {
        assert(s + t =~= s);
    } else {
        lemma_run_append(init, s, t.drop_last());
        assert((s + t).drop_last() =~= s + t.drop_last());
        assert((s + t).last() == t.last());
    }
}

/// Re-arm: a report log that returns the pipeline to scanning leaves it
/// fully reusable — replaying the same log produces the identical
/// transitions a second time.
pub proof fn lemma_rearm(log: Seq<EngineReport>)
    requires
        mode_after(false, log) == false,
    ensures
        mode_after(false, log + log) == false,
        events_of(false, log + log) =~= events_of(false, log) + events_of(false, log),
{
    lemma_run_append(false, log, log);
}

/// The character for one decimal digit.
pub open spec fn decimal_digit_char(d: nat) -> char {
    if d == 0 {
        '0'
    } else if d == 1 {
        '1'
    } else if d == 2 {
        '2'
    } else if d == 3 {
        '3'
    } else if d == 4 {
        '4'
    } else if d == 5 {
        '5'
    } else if d == 6 {
        '6'
    } else if d == 7 {
        '7'
    } else if d == 8 {
        '8'
    } else {
        '9'
    }
}

/// The usual decimal rendering of a number, most significant digit first,
/// no leading zeros (except for zero itself).
pub open spec fn decimal_seq(n: nat) -> Seq<char>
    decreases n,
{
    if n < 10 {
        seq![decimal_digit_char(n)]
    } else {
        decimal_seq(n / 10).push(decimal_digit_char(n % 10))
    }
}

fn decimal_digit_str(d: u32) -> (r: &'static str)
    requires
        d < 10,
    ensures
        r@ =~= seq![decimal_digit_char(d as nat)],
{
    proof {
        reveal_strlit("0");
        reveal_strlit("1");
        reveal_strlit("2");
        reveal_strlit("3");
        reveal_strlit("4");
        reveal_strlit("5");
        reveal_strlit("6");
        reveal_strlit("7");
        reveal_strlit("8");
        reveal_strlit("9");
    }
    match d {
        0 => "0",
        1 => "1",
        2 => "2",
        3 => "3",
        4 => "4",
        5 => "5",
        6 => "6",
        7 => "7",
        8 => "8",
        _ => "9",
    }
}

/// Renders a number in decimal.
pub fn decimal_string(n: u32) -> (r: String)
    ensures
        r@ == decimal_seq(n as nat),
    decreases n,
{
    if n < 10 {
        String::from_str(decimal_digit_str(n))
    } else {
        let high = decimal_string(n / 10);
        let r = high.concat(decimal_digit_str(n % 10));
        proof {
            assert(r@ =~= decimal_seq((n / 10) as nat).push(decimal_digit_char((n % 10) as nat)));
        }
        r
    }
}

/// The message reported when the engines disagree on sample rate.
pub open spec fn sample_rate_mismatch_message(porcupine_rate: u32, rhino_rate: u32) -> Seq<char> {
    "Porcupine sample_rate ("@ + decimal_seq(porcupine_rate as nat)
        + ") was different than Rhino sample_rate ("@ + decimal_seq(rhino_rate as nat) + ")"@
}

/// The message reported when the engines disagree on frame length.
pub open spec fn frame_length_mismatch_message(
    porcupine_frame_length: u32,
    rhino_frame_length: u32,
) -> Seq<char> {
    "Porcupine frame_length ("@ + decimal_seq(porcupine_frame_length as nat)
        + ") was different than Rhino frame_length ("@ + decimal_seq(rhino_frame_length as nat)
        + ")"@
}

/// The version string of the whole pipeline, embedding both sub-engine
/// versions.
pub open spec fn version_string(porcupine_version: Seq<char>, rhino_version: Seq<char>) -> Seq<
    char,
> {
    "2.1.1 (Porcupine v"@ + porcupine_version + ") (Rhino v"@ + rhino_version + ")"@
}

/// Composes the pipeline version string from the two engine versions.
pub fn compose_version(porcupine_version: &str, rhino_version: &str) -> (r: String)
    ensures
        r@ == version_string(porcupine_version@, rhino_version@),
{
    let r = String::from_str("2.1.1 (Porcupine v").concat(porcupine_version).concat(
        ") (Rhino v",
    ).concat(rhino_version).concat(")");
    proof {
        assert(r@ =~= version_string(porcupine_version@, rhino_version@));
    }
    r
}

/// The compatibility check made once at construction: the two engines must
/// agree on sample rate and frame length.  Succeeds exactly on agreement;
/// a sample-rate mismatch is reported ahead of a frame-length mismatch.
pub fn check_compatibility(
    porcupine_sample_rate: u32,
    rhino_sample_rate: u32,
    porcupine_frame_length: u32,
    rhino_frame_length: u32,
) -> (r: Result<(), PicovoiceError>)
    ensures
        r is Ok <==> (porcupine_sample_rate == rhino_sample_rate && porcupine_frame_length
            == rhino_frame_length),
        porcupine_sample_rate != rhino_sample_rate ==> (r matches Err(
            PicovoiceError::LibraryError(m),
        ) && m@ == sample_rate_mismatch_message(porcupine_sample_rate, rhino_sample_rate)),
        (porcupine_sample_rate == rhino_sample_rate && porcupine_frame_length
            != rhino_frame_length) ==> (r matches Err(PicovoiceError::LibraryError(m)) && m@
            == frame_length_mismatch_message(porcupine_frame_length, rhino_frame_length)),
{
    if porcupine_sample_rate != rhino_sample_rate {
        let m = String::from_str("Porcupine sample_rate (").concat(
            decimal_string(porcupine_sample_rate).as_str(),
        ).concat(") was different than Rhino sample_rate (").concat(
            decimal_string(rhino_sample_rate).as_str(),
        ).concat(")");
        proof {
            assert(m@ =~= sample_rate_mismatch_message(porcupine_sample_rate, rhino_sample_rate));
        }
        Err(PicovoiceError::LibraryError(m))
    } else if porcupine_frame_length != rhino_frame_length {
        let m = String::from_str("Porcupine frame_length (").concat(
            decimal_string(porcupine_frame_length).as_str(),
        ).concat(") was different than Rhino frame_length (").concat(
            decimal_string(rhino_frame_length).as_str(),
        ).concat(")");
        proof {
            assert(m@ =~= frame_length_mismatch_message(
                porcupine_frame_length,
                rhino_frame_length,
            ));
        }
        Err(PicovoiceError::LibraryError(m))
    } else {
        Ok(())
    }
}

/// The pipeline coordinator: owns both engines and the two-state dispatch.
///
/// `wake_word_detected` is the mode flag — `false` while scanning for the
/// wake word, `true` while accumulating an utterance for the intent
/// engine.  `reports` is the ghost log of every engine report consumed so
/// far; [`Picovoice::wf`] ties the mode flag to the run of the state
/// machine over that log.
pub struct Picovoice<W: WakeWordEngine, I: IntentEngine> {
    pub porcupine: W,
    pub rhino: I,
    pub sample_rate: u32,
    pub frame_length: u32,
    pub version: String,
    pub wake_word_detected: bool,
    pub reports: Ghost<Seq<EngineReport>>,
}

impl<W: WakeWordEngine, I: IntentEngine> Picovoice<W, I> {
    /// The coordinator's invariant: the mode flag is exactly the
    /// state-machine run over the consumed reports, and every report was
    /// consumed by the matching mode.
    pub open spec fn wf(&self) -> bool {
        &&& self.wake_word_detected == mode_after(false, self.reports@)
        &&& consistent_log(false, self.reports@)
    }

    /// Builds the coordinator from the two engines.  Queries each engine
    /// once for its sample rate and frame length and fails with the exact
    /// mismatch error when they disagree; on success the pipeline starts
    /// in scanning mode with an empty report log, and never partially
    /// succeeds.
    pub fn new(porcupine: W, rhino: I) -> (r: Result<Self, PicovoiceError>)
        ensures
            r matches Ok(p) ==> {
                &&& p.wake_word_detected == false
                &&& p.reports@ =~= Seq::<EngineReport>::empty()
                &&& p.wf()
                &&& exists|pv: Seq<char>, rv: Seq<char>| p.version@ == #[trigger] version_string(
                    pv,
                    rv,
                )
            },
            r matches Err(e) ==> e is LibraryError,
    {
        let porcupine_sample_rate = porcupine.sample_rate();
        let rhino_sample_rate = rhino.sample_rate();
        let porcupine_frame_length = porcupine.frame_length();
        let rhino_frame_length = rhino.frame_length();
        match check_compatibility(
            porcupine_sample_rate,
            rhino_sample_rate,
            porcupine_frame_length,
            rhino_frame_length,
        ) {
            Err(e) => Err(e),
            Ok(()) => {
                let porcupine_version = porcupine.version();
                let rhino_version = rhino.version();
                let version = compose_version(porcupine_version.as_str(), rhino_version.as_str());
                Ok(
                    Picovoice {
                        porcupine,
                        rhino,
                        sample_rate: porcupine_sample_rate,
                        frame_length: porcupine_frame_length,
                        version,
                        wake_word_detected: false,
                        reports: Ghost(Seq::empty()),
                    },
                )
            },
        }
    }

    /// Dispatches one frame to the active engine.
    ///
    /// Scanning: the frame goes to the wake-word engine; keyword index 0
    /// switches to accumulating and yields [`ProcessEvent::WakeWordDetected`].
    /// Accumulating: the frame goes to the intent engine; a finalized
    /// utterance switches back to scanning and yields the inference.
    /// On success the ghost log grows by exactly the report consumed, and
    /// the event is the transition that report fires.  On an engine error
    /// the mode is left as it was — except when the inference retrieval
    /// itself fails, after the utterance already finalized and the mode
    /// already returned to scanning.
    pub fn process(&mut self, pcm: &[i16]) -> (r: Result<ProcessEvent, PicovoiceError>)
        requires
            old(self).wf(),
            pcm@.len() == old(self).frame_length,
        ensures
            final(self).wf(),
            final(self).sample_rate == old(self).sample_rate,
            final(self).frame_length == old(self).frame_length,
            final(self).version == old(self).version,
            r matches Ok(ev) ==> {
                let rep = final(self).reports@.last();
                &&& final(self).reports@ =~= old(self).reports@.push(rep)
                &&& report_matches_mode(old(self).wake_word_detected, rep)
                &&& final(self).wake_word_detected == step_mode(old(self).wake_word_detected, rep)
                &&& (ev is WakeWordDetected <==> wake_fires(old(self).wake_word_detected, rep))
                &&& (ev is InferenceFinalized <==> inference_fires(
                    old(self).wake_word_detected,
                    rep,
                ))
            },
            r is Err ==> {
                ||| (final(self).wake_word_detected == old(self).wake_word_detected
                    && final(self).reports@ =~= old(self).reports@)
                ||| (old(self).wake_word_detected == true && final(self).wake_word_detected
                    == false && final(self).reports@ =~= old(self).reports@.push(
                    EngineReport::Utterance { is_finalized: true },
                ))
            },
    {
        if !self.wake_word_detected {
            match self.porcupine.process(pcm) {
                Err(e) => Err(PicovoiceError::from_porcupine(e)),
                Ok(keyword_index) => {
                    let ghost rep = EngineReport::Keyword { keyword_index };
                    proof {
                        lemma_log_push(false, self.reports@, rep);
                    }
                    self.reports = Ghost(self.reports@.push(rep));
                    if keyword_index == 0 {
                        self.wake_word_detected = true;
                        Ok(ProcessEvent::WakeWordDetected)
                    } else {
                        Ok(ProcessEvent::NoEvent)
                    }
                },
            }
        } else {
            match self.rhino.process(pcm) {
                Err(e) => Err(PicovoiceError::from_rhino(e)),
                Ok(is_finalized) => {
                    let ghost rep = EngineReport::Utterance { is_finalized };
                    proof {
                        lemma_log_push(false, self.reports@, rep);
                    }
                    self.reports = Ghost(self.reports@.push(rep));
                    if is_finalized {
                        self.wake_word_detected = false;
                        match self.rhino.get_inference() {
                            Err(e) => Err(PicovoiceError::from_rhino(e)),
                            Ok(inference) => Ok(ProcessEvent::InferenceFinalized(inference)),
                        }
                    } else {
                        Ok(ProcessEvent::NoEvent)
                    }
                },
            }
        }
    }

    /// The frame length both engines agreed on at construction.
    pub fn frame_length(&self) -> (r: u32)
        ensures
            r == self.frame_length,
    {
        self.frame_length
    }

    /// The sample rate both engines agreed on at construction.
    pub fn sample_rate(&self) -> (r: u32)
        ensures
            r == self.sample_rate,
    {
        self.sample_rate
    }

    /// The composed version string of the pipeline.
    pub fn version(&self) -> (r: String)
        ensures
            r@ == self.version@,
    {
        self.version.clone()
    }
}

} // verus!


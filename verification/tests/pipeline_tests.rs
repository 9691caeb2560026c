use picovoice::engine::{IntentEngine, RhinoInference, WakeWordEngine};
use picovoice::error::{EngineError, PicovoiceError};
use picovoice::pipeline::{check_compatibility, compose_version, decimal_string, Picovoice, ProcessEvent};

/// A wake-word engine that replays a fixed script of keyword indices.
struct ScriptedWake {
    sample_rate: u32,
    frame_length: u32,
    reports: Vec<Result<i32, String>>,
    pos: usize,
}

impl ScriptedWake {
    fn new(sample_rate: u32, frame_length: u32, reports: Vec<Result<i32, String>>) -> Self {
        ScriptedWake { sample_rate, frame_length, reports, pos: 0 }
    }
}

impl WakeWordEngine for ScriptedWake {
    fn sample_rate(&self) -> u32 {
        self.sample_rate
    }
    fn frame_length(&self) -> u32 {
        self.frame_length
    }
    fn version(&self) -> String {
        String::from("3.0.2")
    }
    fn process(&mut self, _pcm: &[i16]) -> Result<i32, EngineError> {
        let r = self.reports[self.pos].clone();
        self.pos += 1;
        r.map_err(|message| EngineError { message })
    }
}

/// An intent engine that replays a fixed script of finalization flags and
/// hands out one fixed inference.
struct ScriptedIntent {
    sample_rate: u32,
    frame_length: u32,
    reports: Vec<Result<bool, String>>,
    pos: usize,
    inference: RhinoInference,
    inferences_taken: usize,
}

impl ScriptedIntent {
    fn new(
        sample_rate: u32,
        frame_length: u32,
        reports: Vec<Result<bool, String>>,
        inference: RhinoInference,
    ) -> Self {
        ScriptedIntent { sample_rate, frame_length, reports, pos: 0, inference, inferences_taken: 0 }
    }
}

impl IntentEngine for ScriptedIntent {
    fn sample_rate(&self) -> u32 {
        self.sample_rate
    }
    fn frame_length(&self) -> u32 {
        self.frame_length
    }
    fn version(&self) -> String {
        String::from("3.0.1")
    }
    fn process(&mut self, _pcm: &[i16]) -> Result<bool, EngineError> {
        let r = self.reports[self.pos].clone();
        self.pos += 1;
        r.map_err(|message| EngineError { message })
    }
    fn get_inference(&mut self) -> Result<RhinoInference, EngineError> {
        self.inferences_taken += 1;
        Ok(self.inference.clone())
    }
}

fn coffee_inference() -> RhinoInference {
    RhinoInference {
        is_understood: true,
        intent: Some(String::from("orderBeverage")),
        slots: vec![
            (String::from("beverage"), String::from("coffee")),
            (String::from("size"), String::from("large")),
        ],
    }
}

fn frame(frame_length: u32) -> Vec<i16> {
    vec![0i16; frame_length as usize]
}

#[test]
fn test_construction_queries() {
    let wake = ScriptedWake::new(16000, 512, vec![]);
    let intent = ScriptedIntent::new(16000, 512, vec![], coffee_inference());
    let picovoice = Picovoice::new(wake, intent).expect("engines agree");
    assert_eq!(picovoice.frame_length(), 512);
    assert_eq!(picovoice.sample_rate(), 16000);
    assert_eq!(picovoice.version(), "2.1.1 (Porcupine v3.0.2) (Rhino v3.0.1)");
    assert!(!picovoice.wake_word_detected);
}

#[test]
fn test_incompatible_sample_rate() {
    let wake = ScriptedWake::new(16000, 512, vec![]);
    let intent = ScriptedIntent::new(22050, 512, vec![], coffee_inference());
    match Picovoice::new(wake, intent) {
        Err(PicovoiceError::LibraryError(m)) => {
            assert_eq!(
                m,
                "Porcupine sample_rate (16000) was different than Rhino sample_rate (22050)"
            );
        }
        _ => panic!("expected a sample-rate mismatch"),
    }
}

#[test]
fn test_incompatible_frame_length() {
    let wake = ScriptedWake::new(16000, 512, vec![]);
    let intent = ScriptedIntent::new(16000, 480, vec![], coffee_inference());
    match Picovoice::new(wake, intent) {
        Err(PicovoiceError::LibraryError(m)) => {
            assert_eq!(
                m,
                "Porcupine frame_length (512) was different than Rhino frame_length (480)"
            );
        }
        _ => panic!("expected a frame-length mismatch"),
    }
}

#[test]
fn test_check_compatibility_exact() {
    assert!(check_compatibility(16000, 16000, 512, 512).is_ok());
    assert!(check_compatibility(16000, 8000, 512, 512).is_err());
    assert!(check_compatibility(16000, 16000, 512, 256).is_err());
    // A sample-rate mismatch is reported ahead of a frame-length mismatch.
    match check_compatibility(16000, 8000, 512, 256) {
        Err(PicovoiceError::LibraryError(m)) => {
            assert!(m.starts_with("Porcupine sample_rate"));
        }
        _ => panic!("expected an error"),
    }
}

#[test]
fn test_wake_then_inference_cycle() {
    // A stream with a spoken wake phrase on the third frame, followed by a
    // command the intent engine finalizes on its second frame.
    let wake = ScriptedWake::new(16000, 512, vec![Ok(-1), Ok(-1), Ok(0)]);
    let intent = ScriptedIntent::new(16000, 512, vec![Ok(false), Ok(true)], coffee_inference());
    let mut picovoice = Picovoice::new(wake, intent).expect("engines agree");
    let pcm = frame(512);

    let mut wake_events = 0;
    let mut inferences = Vec::new();
    for _ in 0..5 {
        match picovoice.process(&pcm).expect("no engine error") {
            ProcessEvent::NoEvent => {}
            ProcessEvent::WakeWordDetected => wake_events += 1,
            ProcessEvent::InferenceFinalized(inf) => inferences.push(inf),
        }
    }

    assert_eq!(wake_events, 1);
    assert_eq!(inferences.len(), 1);
    let inf = &inferences[0];
    assert!(inf.is_understood);
    assert_eq!(inf.intent.as_deref(), Some("orderBeverage"));
    let slots: Vec<(&str, &str)> =
        inf.slots.iter().map(|(k, v)| (k.as_str(), v.as_str())).collect();
    assert_eq!(slots, vec![("beverage", "coffee"), ("size", "large")]);
    // The cycle completed: the pipeline is back in scanning mode.
    assert!(!picovoice.wake_word_detected);
}

#[test]
fn test_rearm_second_cycle_identical() {
    // The same report script runs twice through one pipeline instance.
    let wake = ScriptedWake::new(16000, 512, vec![Ok(-1), Ok(0), Ok(-1), Ok(0)]);
    let intent = ScriptedIntent::new(
        16000,
        512,
        vec![Ok(false), Ok(true), Ok(false), Ok(true)],
        coffee_inference(),
    );
    let mut picovoice = Picovoice::new(wake, intent).expect("engines agree");
    let pcm = frame(512);

    let mut run = || {
        let mut events = Vec::new();
        for _ in 0..4 {
            let ev = picovoice.process(&pcm).expect("no engine error");
            events.push(match ev {
                ProcessEvent::NoEvent => 'q',
                ProcessEvent::WakeWordDetected => 'w',
                ProcessEvent::InferenceFinalized(_) => 'i',
            });
        }
        events
    };
    let first = run();
    let second = run();
    assert_eq!(first, vec!['q', 'w', 'q', 'i']);
    assert_eq!(second, first);
}

#[test]
fn test_only_keyword_index_zero_matches() {
    // The pipeline tracks exactly one keyword: index 0.  Any other index
    // reported while scanning is no match.
    let wake = ScriptedWake::new(16000, 512, vec![Ok(1), Ok(2), Ok(-1)]);
    let intent = ScriptedIntent::new(16000, 512, vec![], coffee_inference());
    let mut picovoice = Picovoice::new(wake, intent).expect("engines agree");
    let pcm = frame(512);
    for _ in 0..3 {
        let ev = picovoice.process(&pcm).expect("no engine error");
        assert!(matches!(ev, ProcessEvent::NoEvent));
        assert!(!picovoice.wake_word_detected);
    }
}

#[test]
fn test_wake_engine_error_leaves_mode() {
    let wake = ScriptedWake::new(
        16000,
        512,
        vec![Err(String::from("frame rejected")), Ok(0)],
    );
    let intent = ScriptedIntent::new(16000, 512, vec![], coffee_inference());
    let mut picovoice = Picovoice::new(wake, intent).expect("engines agree");
    let pcm = frame(512);

    match picovoice.process(&pcm) {
        Err(PicovoiceError::PorcupineError(e)) => {
            assert_eq!(e.message, "frame rejected");
        }
        _ => panic!("expected the wake-word engine's error"),
    }
    // The failed call left the pipeline scanning; the next frame still
    // goes to the wake-word engine.
    assert!(!picovoice.wake_word_detected);
    let ev = picovoice.process(&pcm).expect("no engine error");
    assert!(matches!(ev, ProcessEvent::WakeWordDetected));
    assert!(picovoice.wake_word_detected);
}

#[test]
fn test_intent_engine_error_propagates() {
    let wake = ScriptedWake::new(16000, 512, vec![Ok(0)]);
    let intent = ScriptedIntent::new(
        16000,
        512,
        vec![Err(String::from("utterance rejected"))],
        coffee_inference(),
    );
    let mut picovoice = Picovoice::new(wake, intent).expect("engines agree");
    let pcm = frame(512);

    picovoice.process(&pcm).expect("wake frame succeeds");
    match picovoice.process(&pcm) {
        Err(PicovoiceError::RhinoError(e)) => {
            assert_eq!(e.message, "utterance rejected");
        }
        _ => panic!("expected the intent engine's error"),
    }
    // The failed intent call left the pipeline accumulating.
    assert!(picovoice.wake_word_detected);
}

#[test]
fn test_decimal_string_values() {
    assert_eq!(decimal_string(0), "0");
    assert_eq!(decimal_string(7), "7");
    assert_eq!(decimal_string(10), "10");
    assert_eq!(decimal_string(99), "99");
    assert_eq!(decimal_string(100), "100");
    assert_eq!(decimal_string(16000), "16000");
    assert_eq!(decimal_string(4294967295), "4294967295");
}

#[test]
fn test_compose_version_format() {
    assert_eq!(
        compose_version("3.0.2", "3.0.1"),
        "2.1.1 (Porcupine v3.0.2) (Rhino v3.0.1)"
    );
}

#[test]
fn test_error_message_rendering() {
    let e = PicovoiceError::LibraryError(String::from("engines disagree"));
    assert_eq!(e.message(), "Picovoice error: engines disagree");
    let e = PicovoiceError::from_porcupine(EngineError { message: String::from("bad model") });
    assert_eq!(e.message(), "bad model");
    let e = PicovoiceError::from_rhino(EngineError { message: String::from("bad context") });
    assert_eq!(e.message(), "bad context");
}

//! The live capture session.
//!
//! A hardware capture device hands over fresh samples in chunks of
//! whatever size it chooses, possibly faster than the pipeline consumes
//! them.  [`CaptureBuffer`] is the unbounded FIFO between the two: the
//! capture callback appends at the back, the drain step removes exactly
//! one frame's worth from the front, so frames reach the pipeline in
//! strict arrival order with at most one partial frame pending.
//!
//! Cancellation is cooperative: the flag itself is an atomic owned by the
//! caller, set from an interrupt context, so the freshly sampled value is
//! passed into each drain step; a step that observes `false` forwards
//! nothing, and whatever remains in the buffer is abandoned.
//!
//! The optional recording tee duplicates every raw captured sample, in
//! arrival order, independently of how far draining has progressed.

use vstd::prelude::*;
use vstd::slice::slice_index_get;
use crate::engine::{IntentEngine, WakeWordEngine};
use crate::error::PicovoiceError;
use crate::frames::frames_of;
use crate::pipeline::{
    inference_fires,
    report_matches_mode,
    step_mode,
    wake_fires,
    EngineReport,
    Picovoice,
    ProcessEvent,
};

verus! {

/// The unbounded FIFO of pending samples between the capture callback
/// (producer, appends at the back) and the drain step (consumer, removes
/// whole frames from the front).
pub struct CaptureBuffer {
    pub data: Vec<i16>,
    pub start: usize,
}

impl CaptureBuffer {
    pub open spec fn wf(&self) -> bool {
        self.start <= self.data@.len()
    }

    /// The samples waiting to be drained, oldest first.
    pub open spec fn contents(&self) -> Seq<i16> {
        self.data@.skip(self.start as int)
    }

    pub fn new() -> (r: CaptureBuffer)
        ensures
            r.wf(),
            r.contents() =~= Seq::<i16>::empty(),
    {
        CaptureBuffer { data: Vec::new(), start: 0 }
    }

    /// How many samples are pending.
    pub fn len(&self) -> (r: usize)
        requires
            self.wf(),
        ensures
            r == self.contents().len(),
    {
        self.data.len() - self.start
    }

    /// Producer side: appends freshly captured samples at the back.
    pub fn append(&mut self, chunk: &[i16])
        requires
            old(self).wf(),
        ensures
            final(self).wf(),
            final(self).contents() =~= old(self).contents() + chunk@,
    {
        let mut i: usize = 0;
        while i < chunk.len()
            invariant
                i <= chunk@.len(),
                self.wf(),
                self.start == old(self).start,
                self.contents() =~= old(self).contents() + chunk@.take(i as int),
            decreases chunk@.len() - i,
        {
            let ghost prev_contents = self.contents();
            let ghost prev_i = i as int;
            self.data.push(*slice_index_get(chunk, i));
            i += 1;
            proof {
                assert(self.contents() =~= prev_contents.push(chunk@[prev_i]));
                assert(chunk@.take(prev_i + 1) =~= chunk@.take(prev_i).push(chunk@[prev_i]));
                assert(self.contents() =~= old(self).contents() + chunk@.take(i as int));
            }
        }
        proof {
            assert(chunk@.take(chunk@.len() as int) =~= chunk@);
        }
    }

    /// Consumer side: when at least one whole frame is pending, removes
    /// exactly `frame_length` samples from the front and returns them;
    /// otherwise leaves the buffer untouched.
    pub fn pop_frame(&mut self, frame_length: usize) -> (r: Option<Vec<i16>>)
        requires
            old(self).wf(),
            frame_length > 0,
        ensures
            final(self).wf(),
            old(self).contents().len() >= frame_length ==> (r matches Some(f) && f@ =~= old(
                self,
            ).contents().take(frame_length as int) && final(self).contents() =~= old(
                self,
            ).contents().skip(frame_length as int)),
            old(self).contents().len() < frame_length ==> (r is None && *final(self) == *old(self)),
    {
        let pending = self.data.len() - self.start;
        if pending < frame_length {
            None
        } else {
            let mut f: Vec<i16> = Vec::new();
            let mut j: usize = 0;
            while j < frame_length
                invariant
                    j <= frame_length,
                    *self == *old(self),
                    self.wf(),
                    self.start + frame_length <= self.data@.len(),
                    self.data@.len() <= usize::MAX,
                    f@ =~= self.data@.subrange(self.start as int, self.start + j),
                decreases frame_length - j,
            {
                let sample = self.data[self.start + j];
                f.push(sample);
                j += 1;
            }
            self.start = self.start + frame_length;
            proof {
                assert(f@ =~= old(self).contents().take(frame_length as int));
                assert(self.contents() =~= old(self).contents().skip(frame_length as int));
            }
            Some(f)
        }
    }
}

/// One live capture session: the FIFO, the fixed frame length agreed with
/// the pipeline, and the optional recording tee.  Two ghost histories
/// carry the session's story: `fed` is every sample the device delivered,
/// `forwarded` is every frame handed out for processing, in order.
pub struct CaptureSession {
    pub buffer: CaptureBuffer,
    pub frame_length: usize,
    pub record: bool,
    pub recorded: Vec<i16>,
    pub fed: Ghost<Seq<i16>>,
    pub forwarded: Ghost<Seq<Seq<i16>>>,
}

impl CaptureSession {
    /// The session invariant: the forwarded frames followed by the pending
    /// samples are exactly the fed samples in arrival order; every
    /// forwarded frame is whole; and the tee, when enabled, holds every
    /// fed sample.
    pub open spec fn wf(&self) -> bool {
        &&& self.buffer.wf()
        &&& self.frame_length > 0
        &&& self.forwarded@.flatten() + self.buffer.contents() =~= self.fed@
        &&& forall|i: int|
            0 <= i < self.forwarded@.len() ==> (#[trigger] self.forwarded@[i]).len()
                == self.frame_length
        &&& (self.record ==> self.recorded@ =~= self.fed@)
        &&& (!self.record ==> self.recorded@.len() == 0)
    }

    /// Starts a session for the given frame length, with or without the
    /// recording tee.
    pub fn new(frame_length: usize, record: bool) -> (r: CaptureSession)
        requires
            frame_length > 0,
        ensures
            r.wf(),
            r.frame_length == frame_length,
            r.record == record,
            r.fed@ =~= Seq::<i16>::empty(),
            r.forwarded@ =~= Seq::<Seq<i16>>::empty(),
    {
        let r = CaptureSession {
            buffer: CaptureBuffer::new(),
            frame_length,
            record,
            recorded: Vec::new(),
            fed: Ghost(Seq::empty()),
            forwarded: Ghost(Seq::empty()),
        };
        proof {
            assert(r.forwarded@.flatten() =~= Seq::<i16>::empty());
        }
        r
    }

    /// The capture callback: appends the chunk the device delivered to the
    /// FIFO and, when the tee is enabled, to the recording — whatever size
    /// the device chose.
    pub fn feed(&mut self, chunk: &[i16])
        requires
            old(self).wf(),
        ensures
            final(self).wf(),
            final(self).fed@ =~= old(self).fed@ + chunk@,
            final(self).forwarded@ == old(self).forwarded@,
            final(self).frame_length == old(self).frame_length,
            final(self).record == old(self).record,
            final(self).buffer.contents() =~= old(self).buffer.contents() + chunk@,
    {
        self.buffer.append(chunk);
        if self.record {
            let mut i: usize = 0;
            while i < chunk.len()
                invariant
                    i <= chunk@.len(),
                    self.record == old(self).record,
                    self.frame_length == old(self).frame_length,
                    self.fed == old(self).fed,
                    self.forwarded == old(self).forwarded,
                    self.buffer.wf(),
                    self.buffer.contents() =~= old(self).buffer.contents() + chunk@,
                    self.recorded@ =~= old(self).recorded@ + chunk@.take(i as int),
                decreases chunk@.len() - i,
            {
                self.recorded.push(*slice_index_get(chunk, i));
                i += 1;
                proof {
                    assert(chunk@.take(i as int) =~= chunk@.take(i - 1).push(chunk@[i - 1]));
                }
            }
            proof {
                assert(chunk@.take(chunk@.len() as int) =~= chunk@);
            }
        }
        self.fed = Ghost(self.fed@ + chunk@);
        proof {
            assert(self.forwarded@.flatten() + self.buffer.contents() =~= self.fed@);
        }
    }

    /// One drain opportunity.  `listening` is the freshly sampled value of
    /// the cancellation flag: when it is false nothing is drained and
    /// nothing ever will be through this call — the cancellation bound.
    /// When it is true and a whole frame is pending, exactly that frame —
    /// the oldest `frame_length` samples — is removed and recorded as
    /// forwarded.
    pub fn next_frame(&mut self, listening: bool) -> (r: Option<Vec<i16>>)
        requires
            old(self).wf(),
        ensures
            final(self).wf(),
            final(self).fed@ == old(self).fed@,
            final(self).frame_length == old(self).frame_length,
            final(self).record == old(self).record,
            final(self).recorded@ == old(self).recorded@,
            !listening ==> (r is None && *final(self) == *old(self)),
            (listening && old(self).buffer.contents().len() < old(self).frame_length) ==> (r
                is None && *final(self) == *old(self)),
            (listening && old(self).buffer.contents().len() >= old(self).frame_length) ==> (r
                matches Some(f) && f@ =~= old(self).buffer.contents().take(
                old(self).frame_length as int,
            ) && final(self).forwarded@ =~= old(self).forwarded@.push(f@)
                && final(self).buffer.contents() =~= old(self).buffer.contents().skip(
                old(self).frame_length as int,
            )),
    {
        if !listening {
            return None;
        }
        match self.buffer.pop_frame(self.frame_length) {
            None => None,
            Some(f) => {
                proof {
                    self.forwarded@.lemma_flatten_push(f@);
                }
                self.forwarded = Ghost(self.forwarded@.push(f@));
                Some(f)
            },
        }
    }

    /// One whole drain pass, the push-style discipline: while the flag
    /// still read "listening" when the pass began, every whole frame that
    /// is pending moves out, in arrival order — exactly the frames
    /// [`frames_of`] names for the pending samples, so the trailing
    /// partial frame stays behind and is never forwarded.  A cleared flag
    /// forwards nothing.  (The pull-style loop re-samples the flag at
    /// every frame instead and calls [`CaptureSession::next_frame`]
    /// directly.)
    pub fn drain_pending(&mut self, listening: bool) -> (frames: Vec<Vec<i16>>)
        requires
            old(self).wf(),
        ensures
            final(self).wf(),
            final(self).fed@ == old(self).fed@,
            final(self).frame_length == old(self).frame_length,
            final(self).record == old(self).record,
            final(self).recorded@ == old(self).recorded@,
            !listening ==> (*final(self) == *old(self) && frames@.len() == 0),
            listening ==> ({
                let pending = old(self).buffer.contents();
                let fl = old(self).frame_length as int;
                &&& frames.deep_view() =~= frames_of(pending, fl)
                &&& final(self).forwarded@ =~= old(self).forwarded@ + frames.deep_view()
                &&& final(self).buffer.contents() =~= pending.skip(frames@.len() * fl)
                &&& final(self).buffer.contents().len() < fl
            }),
    {
        let mut frames: Vec<Vec<i16>> = Vec::new();
        if !listening {
            return frames;
        }
        let ghost pending = old(self).buffer.contents();
        let ghost fl = old(self).frame_length as int;
        proof {
            assert(frames@.len() * fl == 0) by (nonlinear_arith)
                requires
                    frames@.len() == 0,
            ;
            assert(pending.skip(0) =~= pending);
        }
        while self.buffer.len() >= self.frame_length
            invariant
                self.wf(),
                self.frame_length == old(self).frame_length,
                fl == self.frame_length as int,
                self.fed@ == old(self).fed@,
                self.record == old(self).record,
                self.recorded@ == old(self).recorded@,
                self.forwarded@ =~= old(self).forwarded@ + frames.deep_view(),
                frames@.len() * fl <= pending.len(),
                frames.deep_view() =~= frames_of(pending, fl).take(frames@.len() as int),
                self.buffer.contents() =~= pending.skip(frames@.len() * fl),
            decreases self.buffer.contents().len(),
        {
            let ghost n = frames@.len() as int;
            let ghost before = self.buffer.contents();
            let f = match self.next_frame(true) {
                Some(f) => f,
                None => unreached(),
            };
            let ghost prev_deep = frames.deep_view();
            frames.push(f);
            proof {
                assert(f.deep_view() =~= f@);
                assert(frames.deep_view() =~= prev_deep.push(f@));
                assert((n + 1) * fl == n * fl + fl) by (nonlinear_arith);
                assert(n * fl + fl <= pending.len());
                assert(0 <= n < pending.len() as int / fl) by (nonlinear_arith)
                    requires
                        fl > 0,
                        n >= 0,
                        n * fl + fl <= pending.len(),
                ;
                assert(f@ =~= before.take(fl));
                assert(before =~= pending.skip(n * fl));
                assert(f@ =~= pending.subrange(n * fl, n * fl + fl));
                assert(frames_of(pending, fl)[n] =~= pending.subrange(n * fl, n * fl + fl));
                assert(frames_of(pending, fl).take(n + 1) =~= frames_of(pending, fl).take(n).push(
                    frames_of(pending, fl)[n],
                ));
                assert(frames.deep_view() =~= frames_of(pending, fl).take(n + 1));
                assert(self.buffer.contents() =~= before.skip(fl));
                assert(self.buffer.contents() =~= pending.skip((n + 1) * fl));
            }
        }
        proof {
            let n = frames@.len() as int;
            assert(pending.len() - n * fl < fl);
            assert(n == pending.len() as int / fl) by (nonlinear_arith)
                requires
                    fl > 0,
                    n >= 0,
                    n * fl <= pending.len(),
                    pending.len() - n * fl < fl,
            ;
            assert(frames_of(pending, fl).take(n) =~= frames_of(pending, fl));
        }
        frames
    }
}

/// Ordering preservation: whatever chunk sizes the producer chose, the
/// frames forwarded so far are exactly the oldest fed samples, in arrival
/// order, with the newest samples still pending in the buffer.
pub proof fn lemma_ordering(s: &CaptureSession)
    requires
        s.wf(),
    ensures
        s.fed@ =~= s.forwarded@.flatten() + s.buffer.contents(),
        s.forwarded@.flatten() =~= s.fed@.take(s.fed@.len() - s.buffer.contents().len()),
{
}

/// One iteration of the live drain loop: while the freshly sampled
/// cancellation flag still reads "listening" and a whole frame is
/// pending, the oldest frame moves from the FIFO into
/// [`Picovoice::process`].  A false flag forwards nothing; an engine error
/// aborts the iteration after the frame was consumed.
pub fn pump_one<W: WakeWordEngine, I: IntentEngine>(
    session: &mut CaptureSession,
    picovoice: &mut Picovoice<W, I>,
    listening: bool,
) -> (r: Result<Option<ProcessEvent>, PicovoiceError>)
    requires
        old(session).wf(),
        old(picovoice).wf(),
        old(session).frame_length == old(picovoice).frame_length,
    ensures
        final(session).wf(),
        final(picovoice).wf(),
        final(session).frame_length == old(session).frame_length,
        final(session).fed@ == old(session).fed@,
        final(session).record == old(session).record,
        final(session).recorded@ == old(session).recorded@,
        final(picovoice).frame_length == old(picovoice).frame_length,
        final(picovoice).sample_rate == old(picovoice).sample_rate,
        final(picovoice).version == old(picovoice).version,
        (!listening || old(session).buffer.contents().len() < old(session).frame_length) ==> (r
            matches Ok(ev) && ev is None && *final(session) == *old(session)
            && *final(picovoice) == *old(picovoice)),
        (listening && old(session).buffer.contents().len() >= old(session).frame_length) ==> ({
            let frame = old(session).buffer.contents().take(old(session).frame_length as int);
            &&& final(session).forwarded@ =~= old(session).forwarded@.push(frame)
            &&& final(session).buffer.contents() =~= old(session).buffer.contents().skip(
                old(session).frame_length as int,
            )
            &&& (r matches Ok(ev) ==> ev matches Some(pe) && {
                let rep = final(picovoice).reports@.last();
                &&& final(picovoice).reports@ =~= old(picovoice).reports@.push(rep)
                &&& report_matches_mode(old(picovoice).wake_word_detected, rep)
                &&& final(picovoice).wake_word_detected == step_mode(
                    old(picovoice).wake_word_detected,
                    rep,
                )
                &&& (pe is WakeWordDetected <==> wake_fires(
                    old(picovoice).wake_word_detected,
                    rep,
                ))
                &&& (pe is InferenceFinalized <==> inference_fires(
                    old(picovoice).wake_word_detected,
                    rep,
                ))
            })
            &&& (r is Err ==> {
                ||| (final(picovoice).wake_word_detected == old(picovoice).wake_word_detected
                    && final(picovoice).reports@ =~= old(picovoice).reports@)
                ||| (old(picovoice).wake_word_detected == true
                    && final(picovoice).wake_word_detected == false
                    && final(picovoice).reports@ =~= old(picovoice).reports@.push(
                    EngineReport::Utterance { is_finalized: true },
                ))
            })
        }),
{
    match session.next_frame(listening) {
        None => Ok(None),
        Some(frame) => {
            match picovoice.process(frame.as_slice()) {
                Ok(ev) => Ok(Some(ev)),
                Err(e) => Err(e),
            }
        },
    }
}

} // verus!

//! The file frame source.
//!
//! A pre-recorded stream is a flat sequence of 16-bit samples; the
//! pipeline consumes it in frames of exactly `frame_length` samples.  The
//! slicer below produces every whole frame in stream order and drops the
//! trailing partial frame — incomplete frames never reach the engines.
//! The shape check validates the container's header values before any
//! sample is read.

use vstd::prelude::*;

verus! {

/// The whole frames of a sample stream: frame `i` is the samples from
/// `i * frame_length` up to `(i + 1) * frame_length`, and the trailing
/// `len % frame_length` samples belong to no frame.
pub open spec fn frames_of(samples: Seq<i16>, frame_length: int) -> Seq<Seq<i16>>
    recommends
        frame_length > 0,
{
    Seq::new(
        (samples.len() as int / frame_length) as nat,
        |i: int| samples.subrange(i * frame_length, i * frame_length + frame_length),
    )
}

/// Every frame of [`frames_of`] lies inside the stream: the subranges it
/// takes are within bounds.
pub proof fn lemma_frames_of_in_bounds(samples: Seq<i16>, frame_length: int, i: int)
    requires
        frame_length > 0,
        0 <= i < samples.len() as int / frame_length,
    ensures
        0 <= i * frame_length,
        i * frame_length + frame_length <= samples.len(),
{
    assert(0 <= i * frame_length && i * frame_length + frame_length <= samples.len())
        by (nonlinear_arith)
        requires
            frame_length > 0,
            0 <= i < samples.len() as int / frame_length,
    ;
}

/// Trailing partial frame is dropped: a stream of `k * frame_length + r`
/// samples with `0 <= r < frame_length` slices into exactly `k` frames;
/// their concatenation is precisely the first `k * frame_length` samples
/// in stream order, so the final `r` samples stand in no frame.
pub proof fn lemma_trailing_partial_dropped(samples: Seq<i16>, frame_length: int, k: int, r: int)
    requires
        frame_length > 0,
        0 <= r < frame_length,
        k >= 0,
        samples.len() == k * frame_length + r,
    ensures
        frames_of(samples, frame_length).len() == k,
        frames_of(samples, frame_length).flatten() =~= samples.take(k * frame_length),
    decreases k,
{
    assert(samples.len() as int / frame_length == k) by (nonlinear_arith)
        requires
            frame_length > 0,
            0 <= r < frame_length,
            k >= 0,
            samples.len() == k * frame_length + r,
    ;
    if k == 0 {
        assert(frames_of(samples, frame_length).flatten() =~= samples.take(0));
    } else {
        assert(samples.len() - frame_length == (k - 1) * frame_length + r && (k - 1) * frame_length
            + r >= 0) by (nonlinear_arith)
            requires
                samples.len() == k * frame_length + r,
                k >= 1,
                frame_length > 0,
                r >= 0,
        ;
        let shorter = samples.take(samples.len() - frame_length);
        assert(shorter.len() == (k - 1) * frame_length + r);
        lemma_trailing_partial_dropped(shorter, frame_length, k - 1, r);
        let whole = frames_of(samples, frame_length);
        let prefix = frames_of(shorter, frame_length);
        let last_frame = samples.subrange((k - 1) * frame_length, k * frame_length);
        assert forall|i: int| 0 <= i < k - 1 implies prefix[i] =~= whole[i] by {
            lemma_frames_of_in_bounds(shorter, frame_length, i);
            assert((i + 1) * frame_length <= (k - 1) * frame_length) by (nonlinear_arith)
                requires
                    frame_length > 0,
                    i < k - 1,
            ;
            assert(i * frame_length + frame_length == (i + 1) * frame_length) by (nonlinear_arith);
        }
        assert((k - 1) * frame_length + frame_length == k * frame_length) by (nonlinear_arith);
        assert((k - 1) * frame_length >= 0) by (nonlinear_arith)
            requires
                k >= 1,
                frame_length > 0,
        ;
        assert(whole[k - 1] =~= last_frame);
        assert(whole =~= prefix.push(last_frame));
        prefix.lemma_flatten_push(last_frame);
        assert(prefix.push(last_frame).flatten() =~= prefix.flatten() + last_frame);
        assert(shorter.take((k - 1) * frame_length) =~= samples.take((k - 1) * frame_length));
        assert(prefix.flatten() + last_frame =~= samples.take(k * frame_length));
    }
}

/// Slices a sample stream into its whole frames, in stream order; the
/// trailing partial frame, if any, is dropped.
pub fn slice_frames(samples: &[i16], frame_length: usize) -> (frames: Vec<Vec<i16>>)
    requires
        frame_length > 0,
    ensures
        frames.deep_view() =~= frames_of(samples@, frame_length as int),
{
    let mut frames: Vec<Vec<i16>> = Vec::new();
    let mut pos: usize = 0;
    let total: usize = samples.len();
    proof {
        assert(frames@.len() * frame_length == 0) by (nonlinear_arith)
            requires
                frames@.len() == 0,
        ;
    }
    while total - pos >= frame_length
        invariant
            frame_length > 0,
            total == samples@.len(),
            pos <= total,
            pos == frames@.len() * frame_length,
            forall|i: int|
                0 <= i < frames@.len() ==> (#[trigger] frames@[i])@ =~= samples@.subrange(
                    i * (frame_length as int),
                    i * (frame_length as int) + frame_length as int,
                ),
        decreases total - pos,
    {
        let mut frame: Vec<i16> = Vec::new();
        let mut j: usize = 0;
        while j < frame_length
            invariant
                j <= frame_length,
                pos + frame_length <= total,
                total == samples@.len(),
                frame@ =~= samples@.subrange(pos as int, pos + j),
            decreases frame_length - j,
        {
            frame.push(samples[pos + j]);
            j += 1;
        }
        let ghost old_count = frames@.len() as int;
        frames.push(frame);
        pos += frame_length;
        proof {
            assert(old_count * (frame_length as int) + frame_length as int == (old_count + 1) * (
            frame_length as int)) by (nonlinear_arith);
            assert((frames@[old_count])@ =~= samples@.subrange(
                old_count * (frame_length as int),
                old_count * (frame_length as int) + frame_length as int,
            ));
        }
    }
    proof {
        assert(frames@.len() == samples@.len() as int / frame_length as int) by (nonlinear_arith)
            requires
                frame_length > 0,
                pos == frames@.len() * frame_length,
                pos <= samples@.len(),
                samples@.len() < pos + frame_length,
        ;
        assert forall|i: int| 0 <= i < frames@.len() implies frames.deep_view()[i] =~= frames_of(
            samples@,
            frame_length as int,
        )[i] by {
            assert((frames@[i])@ =~= samples@.subrange(
                i * (frame_length as int),
                i * (frame_length as int) + frame_length as int,
            ));
        }
        assert(frames.deep_view() =~= frames_of(samples@, frame_length as int));
    }
    frames
}

/// Why a pre-recorded input does not match the required mono, 16-bit,
/// fixed-rate PCM shape.
#[derive(Debug, Clone, Copy, PartialEq, Eq, Structural)]
pub enum FormatError {
    /// The container's sample rate differs from the rate the engines
    /// mandate.
    SampleRateMismatch { expected: u32, got: u32 },
    /// The stream is not single-channel.
    ChannelCountMismatch { got: u16 },
    /// The samples are not signed 16-bit integers.
    NotSigned16Bit,
}

/// Validates the shape of a pre-recorded input against the pipeline's
/// mandated format: the expected sample rate, exactly one channel, and
/// signed 16-bit integer samples.  Succeeds exactly when all three hold;
/// the checks are made in that order and the first failure is reported.
pub fn check_wav_format(
    sample_rate: u32,
    expected_sample_rate: u32,
    channels: u16,
    bits_per_sample: u16,
    is_int_format: bool,
) -> (r: Result<(), FormatError>)
    ensures
        r is Ok <==> (sample_rate == expected_sample_rate && channels == 1 && bits_per_sample == 16
            && is_int_format),
        sample_rate != expected_sample_rate ==> r == Err::<(), FormatError>(
            FormatError::SampleRateMismatch { expected: expected_sample_rate, got: sample_rate },
        ),
        (sample_rate == expected_sample_rate && channels != 1) ==> r == Err::<(), FormatError>(
            FormatError::ChannelCountMismatch { got: channels },
        ),
        (sample_rate == expected_sample_rate && channels == 1 && !(bits_per_sample == 16
            && is_int_format)) ==> r == Err::<(), FormatError>(FormatError::NotSigned16Bit),
{
    if sample_rate != expected_sample_rate {
        Err(FormatError::SampleRateMismatch { expected: expected_sample_rate, got: sample_rate })
    } else if channels != 1 {
        Err(FormatError::ChannelCountMismatch { got: channels })
    } else if bits_per_sample != 16 || !is_int_format {
        Err(FormatError::NotSigned16Bit)
    } else {
        Ok(())
    }
}

} // verus!

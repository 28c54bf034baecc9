//! The decisions of microphone capture: when an utterance starts, which
//! chunks are kept, and when it is over. The samples themselves, their
//! loudness and the audio stream stay with the caller; this state machine
//! sees each chunk as its length and whether it was loud enough.
use vstd::prelude::*;

verus! {

/// How many mono frames `input_len` interleaved samples of `channels`
/// channels make: a trailing partial frame counts as one.
pub open spec fn mono_frames(input_len: nat, channels: nat) -> nat
    recommends
        channels > 0,
{
    if input_len % channels == 0 {
        input_len / channels
    } else {
        input_len / channels + 1
    }
}

/// A non-empty chunk makes at least one frame, and never more frames than
/// samples.
pub proof fn lemma_mono_frames_bounds(input_len: nat, channels: nat)
    requires
        channels > 0,
    ensures
        input_len > 0 ==> mono_frames(input_len, channels) > 0,
        mono_frames(input_len, channels) <= input_len,
{
    let q = input_len / channels;
    let r = input_len % channels;
    assert(input_len == channels * q + r && 0 <= r < channels) by (nonlinear_arith)
        requires
            channels > 0,
            q == input_len / channels,
            r == input_len % channels,
    ;
    assert(q <= input_len) by (nonlinear_arith)
        requires
            input_len == channels * q + r,
            channels > 0,
            r >= 0,
            q >= 0,
    ;
    if r != 0 {
        assert(q + 1 <= input_len) by (nonlinear_arith)
            requires
                input_len == channels * q + r,
                channels > 0,
                0 < r < channels,
                q >= 0,
        ;
    } else if input_len > 0 {
        assert(q > 0) by (nonlinear_arith)
            requires
                input_len == channels * q,
                input_len > 0,
        ;
    }
}

/// Law: the frame count is the number of chunks of `channels` samples that
/// `input_len` samples split into, the last one possibly partial: the frames
/// cover every sample, and one frame fewer would not.
pub proof fn lemma_mono_frames_is_ceiling(input_len: nat, channels: nat)
    requires
        channels > 0,
    ensures
        mono_frames(input_len, channels) * channels >= input_len,
        input_len > 0 ==> (mono_frames(input_len, channels) - 1) * channels < input_len,
        input_len == 0 ==> mono_frames(input_len, channels) == 0,
        input_len % channels == 0 ==> mono_frames(input_len, channels) * channels == input_len,
{
    let q = input_len / channels;
    let r = input_len % channels;
    let f = mono_frames(input_len, channels);
    assert(input_len == channels * q + r && 0 <= r < channels) by (nonlinear_arith)
        requires
            channels > 0,
            q == input_len / channels,
            r == input_len % channels,
    ;
    if r == 0 {
        assert(f == q);
        assert(f * channels == input_len) by (nonlinear_arith)
            requires
                input_len == channels * q,
                f == q,
        ;
        if input_len > 0 {
            assert((f - 1) * channels < input_len) by (nonlinear_arith)
                requires
                    f * channels == input_len,
                    channels > 0,
                    input_len > 0,
            ;
        } else {
            assert(q == 0) by (nonlinear_arith)
                requires
                    input_len == channels * q,
                    input_len == 0,
                    channels > 0,
            ;
        }
    } else {
        assert(f == q + 1);
        assert(f * channels >= input_len && (f - 1) * channels < input_len) by (nonlinear_arith)
            requires
                input_len == channels * q + r,
                0 < r < channels,
                f == q + 1,
        ;
    }
}

/// The number of mono frames in a chunk of `input_len` interleaved samples.
pub fn mono_frame_count(input_len: usize, channels: usize) -> (r: usize)
    requires
        channels > 0,
    ensures
        r == mono_frames(input_len as nat, channels as nat),
        r * channels >= input_len,
        input_len > 0 ==> (r - 1) * channels < input_len,
{
    proof {
        lemma_mono_frames_bounds(input_len as nat, channels as nat);
        lemma_mono_frames_is_ceiling(input_len as nat, channels as nat);
    }
    if input_len % channels == 0 {
        input_len / channels
    } else {
        input_len / channels + 1
    }
}

/// What to do with a chunk of input.
#[derive(Debug, Clone, Copy, PartialEq, Eq, Structural)]
pub enum ChunkAction {
    /// Drop it: nothing has been heard yet, the chunk is empty, or the
    /// utterance is already over.
    Discard,
    /// Append its mono samples to the utterance.
    Keep,
    /// Append its mono samples; the utterance is now over.
    KeepAndFinish,
}

/// The abstract state of a capture.
pub struct CaptureStatus {
    pub started: bool,
    pub finished: bool,
    pub channels: nat,
    pub speech_frames: nat,
    pub silence_frames: nat,
    pub min_frames: nat,
    pub max_frames: nat,
    pub silence_limit_frames: nat,
}

impl CaptureStatus {
    /// Whether an utterance of this length, ending in this much silence, is
    /// over: long enough and followed by enough silence, or too long.
    pub open spec fn stop_condition(self) -> bool {
        (self.speech_frames >= self.min_frames && self.silence_frames >= self.silence_limit_frames)
            || self.speech_frames >= self.max_frames
    }

    /// The invariant of every capture state.
    pub open spec fn wf(self) -> bool {
        &&& self.started <==> self.speech_frames > 0
        &&& self.silence_frames <= self.speech_frames
        &&& self.finished ==> self.started && self.stop_condition()
    }

    /// The state and the decision after a chunk of `input_len` samples that
    /// was (`loud`) or was not at least as loud as the threshold.
    pub open spec fn step(self, input_len: nat, loud: bool) -> (CaptureStatus, ChunkAction) {
        if self.finished || input_len == 0 {
            (self, ChunkAction::Discard)
        } else {
            let frames = mono_frames(input_len, self.channels);
            if !self.started {
                if loud {
                    (
                        CaptureStatus {
                            started: true,
                            speech_frames: self.speech_frames + frames,
                            silence_frames: 0,
                            ..self
                        },
                        ChunkAction::Keep,
                    )
                } else {
                    (self, ChunkAction::Discard)
                }
            } else {
                let next = CaptureStatus {
                    speech_frames: self.speech_frames + frames,
                    silence_frames: if loud { 0 } else { self.silence_frames + frames },
                    ..self
                };
                if next.stop_condition() {
                    (CaptureStatus { finished: true, ..next }, ChunkAction::KeepAndFinish)
                } else {
                    (next, ChunkAction::Keep)
                }
            }
        }
    }
}

/// The progress of one utterance: whether speech has started, whether the
/// utterance is over, and how many frames of speech and of trailing silence
/// it holds.
#[derive(Debug)]
pub struct CaptureState {
    started: bool,
    finished: bool,
    channels: usize,
    speech_frames: u64,
    silence_frames: u64,
    min_frames: u64,
    max_frames: u64,
    silence_limit_frames: u64,
}

impl View for CaptureState {
    type V = CaptureStatus;

    closed spec fn view(&self) -> CaptureStatus {
        CaptureStatus {
            started: self.started,
            finished: self.finished,
            channels: self.channels as nat,
            speech_frames: self.speech_frames as nat,
            silence_frames: self.silence_frames as nat,
            min_frames: self.min_frames as nat,
            max_frames: self.max_frames as nat,
            silence_limit_frames: self.silence_limit_frames as nat,
        }
    }
}

impl CaptureState {
    /// A capture that has heard nothing yet.
    pub fn new(channels: usize, min_frames: u64, max_frames: u64, silence_limit_frames: u64) -> (r:
        CaptureState)
        ensures
            r@ == (CaptureStatus {
                started: false,
                finished: false,
                channels: channels as nat,
                speech_frames: 0,
                silence_frames: 0,
                min_frames: min_frames as nat,
                max_frames: max_frames as nat,
                silence_limit_frames: silence_limit_frames as nat,
            }),
            r@.wf(),
    {
        CaptureState {
            started: false,
            finished: false,
            channels,
            speech_frames: 0,
            silence_frames: 0,
            min_frames,
            max_frames,
            silence_limit_frames,
        }
    }

    /// Whether any speech has been kept.
    pub fn is_started(&self) -> (r: bool)
        ensures
            r == self@.started,
    {
        self.started
    }

    /// Whether the utterance is over.
    pub fn is_finished(&self) -> (r: bool)
        ensures
            r == self@.finished,
    {
        self.finished
    }

    /// The number of mono frames kept so far.
    pub fn speech_frames(&self) -> (r: u64)
        ensures
            r == self@.speech_frames,
    {
        self.speech_frames
    }

    /// Takes a chunk of `input_len` interleaved samples, of which the caller
    /// found whether its mono mix is `loud` (its level at least the
    /// threshold), and says what to do with it.
    pub fn push_input(&mut self, input_len: usize, loud: bool) -> (action: ChunkAction)
        requires
            old(self)@.wf(),
            !old(self)@.finished && input_len > 0 ==> old(self)@.channels > 0,
            !old(self)@.finished && input_len > 0 ==> old(self)@.speech_frames + mono_frames(
                input_len as nat,
                old(self)@.channels,
            ) <= u64::MAX,
        ensures
            final(self)@ == old(self)@.step(input_len as nat, loud).0,
            action == old(self)@.step(input_len as nat, loud).1,
            final(self)@.wf(),
    {
        if self.finished || input_len == 0 {
            return ChunkAction::Discard;
        }
        let frames = mono_frame_count(input_len, self.channels) as u64;
        proof {
            lemma_mono_frames_bounds(input_len as nat, self.channels as nat);
        }
        if !self.started {
            if loud {
                self.started = true;
                self.speech_frames = self.speech_frames + frames;
                self.silence_frames = 0;
                return ChunkAction::Keep;
            }
            return ChunkAction::Discard;
        }
        self.speech_frames = self.speech_frames + frames;
        if !loud {
            self.silence_frames = self.silence_frames + frames;
        } else {
            self.silence_frames = 0;
        }
        let min_ok = self.speech_frames >= self.min_frames;
        let silence_ok = self.silence_frames >= self.silence_limit_frames;
        let too_long = self.speech_frames >= self.max_frames;
        if (min_ok && silence_ok) || too_long {
            self.finished = true;
            ChunkAction::KeepAndFinish
        } else {
            ChunkAction::Keep
        }
    }
}

} // verus!

verus! {

/// Law: once an utterance is over it stays over; every later chunk is
/// discarded and changes nothing.
pub proof fn lemma_finished_is_final(s: CaptureStatus, input_len: nat, loud: bool)
    requires
        s.finished,
    ensures
        s.step(input_len, loud) == (s, ChunkAction::Discard),
{
}

/// Law: the count of speech frames grows by exactly the chunk's mono frames
/// when the chunk is kept and stays put when it is discarded, so it always
/// equals the number of mono frames the caller has appended; nothing is
/// kept before the first loud chunk.
pub proof fn lemma_step_accounts_frames(s: CaptureStatus, input_len: nat, loud: bool)
    requires
        s.wf(),
        s.channels > 0,
    ensures
        ({
            let (next, action) = s.step(input_len, loud);
            &&& action == ChunkAction::Discard ==> next == s
            &&& action != ChunkAction::Discard ==> next.speech_frames == s.speech_frames
                + mono_frames(input_len, s.channels) && next.speech_frames > s.speech_frames
            &&& !s.started && !loud ==> action == ChunkAction::Discard
            &&& next.wf()
        }),
{
    lemma_mono_frames_bounds(input_len, s.channels);
}

/// Law: an utterance ends exactly when a kept chunk leaves it long enough
/// and followed by enough silence, or too long; the chunk that starts it
/// never ends it.
pub proof fn lemma_finish_exactly_on_stop_condition(s: CaptureStatus, input_len: nat, loud: bool)
    requires
        s.wf(),
        s.channels > 0,
    ensures
        ({
            let (next, action) = s.step(input_len, loud);
            &&& action == ChunkAction::KeepAndFinish <==> (!s.finished && next.finished)
            &&& action == ChunkAction::KeepAndFinish ==> s.started && next.stop_condition()
            &&& action == ChunkAction::Keep ==> !next.finished
            &&& (!s.finished && s.started && input_len > 0 && next.stop_condition())
                ==> action == ChunkAction::KeepAndFinish
        }),
{
    lemma_mono_frames_bounds(input_len, s.channels);
}

/// Law: the rules of a chunk in terms of the counts. A chunk of `f` mono
/// frames that is kept adds `f` to the speech frames; if it is loud the
/// trailing silence drops to zero, if it is quiet the silence grows by `f`.
/// Before speech starts only a loud chunk is kept, and it starts the
/// utterance with `f` speech frames and no silence. Once speech has started
/// every non-empty chunk is kept, and it ends the utterance exactly when the
/// speech then reaches `max_frames`, or reaches `min_frames` with the silence
/// at `silence_limit_frames` or more. The limits and the channel count never
/// change.
pub proof fn lemma_chunk_rules(s: CaptureStatus, input_len: nat, loud: bool)
    requires
        s.wf(),
        s.channels > 0,
    ensures
        ({
            let (next, action) = s.step(input_len, loud);
            let f = mono_frames(input_len, s.channels);
            &&& next.channels == s.channels
            &&& next.min_frames == s.min_frames
            &&& next.max_frames == s.max_frames
            &&& next.silence_limit_frames == s.silence_limit_frames
            &&& (s.finished || input_len == 0) ==> action == ChunkAction::Discard && next == s
            &&& (!s.finished && input_len > 0 && !s.started) ==> (if loud {
                action == ChunkAction::Keep && next.started && !next.finished
                    && next.speech_frames == f && next.silence_frames == 0
            } else {
                action == ChunkAction::Discard && next == s
            })
            &&& (!s.finished && input_len > 0 && s.started) ==> {
                &&& action != ChunkAction::Discard
                &&& next.started
                &&& next.speech_frames == s.speech_frames + f
                &&& loud ==> next.silence_frames == 0
                &&& !loud ==> next.silence_frames == s.silence_frames + f
                &&& (action == ChunkAction::KeepAndFinish) == next.finished
                &&& next.finished == ((next.speech_frames >= s.min_frames && next.silence_frames
                    >= s.silence_limit_frames) || next.speech_frames >= s.max_frames)
            }
        }),
{
    lemma_mono_frames_bounds(input_len, s.channels);
}

/// Law: an utterance is never over before it has at least `min_frames` of
/// speech followed by `silence_limit_frames` of silence, unless it has
/// reached `max_frames`; and only a started utterance can be over.
pub proof fn lemma_finished_only_when_long_enough(s: CaptureStatus)
    requires
        s.wf(),
        s.finished,
    ensures
        s.started,
        s.speech_frames > 0,
        (s.speech_frames >= s.min_frames && s.silence_frames >= s.silence_limit_frames)
            || s.speech_frames >= s.max_frames,
        s.silence_frames <= s.speech_frames,
{
}

} // verus!

verus! {

/// The state and the decisions after a run of chunks, each given by its
/// length and whether it was loud.
pub open spec fn run(s: CaptureStatus, chunks: Seq<(nat, bool)>) -> (CaptureStatus, Seq<ChunkAction>)
    decreases chunks.len(),
{
    if chunks.len() == 0 {
        (s, Seq::<ChunkAction>::empty())
    } else {
        let (next, action) = s.step(chunks[0].0, chunks[0].1);
        let (last, rest) = run(next, chunks.drop_first());
        (last, seq![action] + rest)
    }
}

/// How many decisions end the utterance.
pub open spec fn finish_count(actions: Seq<ChunkAction>) -> nat
    decreases actions.len(),
{
    if actions.len() == 0 {
        0
    } else {
        (if actions[0] == ChunkAction::KeepAndFinish { 1nat } else { 0nat }) + finish_count(
            actions.drop_first(),
        )
    }
}

/// The mono frames of the chunks that the decisions keep.
pub open spec fn kept_frames(channels: nat, chunks: Seq<(nat, bool)>, actions: Seq<ChunkAction>) -> nat
    decreases chunks.len(),
{
    if chunks.len() == 0 || actions.len() == 0 {
        0
    } else {
        (if actions[0] == ChunkAction::Discard { 0 } else { mono_frames(chunks[0].0, channels) })
            + kept_frames(channels, chunks.drop_first(), actions.drop_first())
    }
}

/// Law: over any run of chunks the utterance is signalled over at most once;
/// a capture that is over stays over and keeps nothing more; the speech
/// frames counted are exactly the frames of the kept chunks; and the
/// invariant holds at the end.
pub proof fn lemma_run_signals_at_most_once(s: CaptureStatus, chunks: Seq<(nat, bool)>)
    requires
        s.wf(),
        s.channels > 0,
    ensures
        ({
            let (last, actions) = run(s, chunks);
            &&& actions.len() == chunks.len()
            &&& finish_count(actions) <= 1
            &&& s.finished ==> finish_count(actions) == 0 && last == s
            &&& last.finished == (s.finished || finish_count(actions) == 1)
            &&& last.speech_frames == s.speech_frames + kept_frames(s.channels, chunks, actions)
            &&& last.channels == s.channels
            &&& last.wf()
        }),
    decreases chunks.len(),
{
    if chunks.len() > 0 {
        let (next, action) = s.step(chunks[0].0, chunks[0].1);
        lemma_step_accounts_frames(s, chunks[0].0, chunks[0].1);
        lemma_finish_exactly_on_stop_condition(s, chunks[0].0, chunks[0].1);
        lemma_run_signals_at_most_once(next, chunks.drop_first());
        let (last, rest) = run(next, chunks.drop_first());
        let actions = seq![action] + rest;
        assert(actions[0] == action);
        assert(actions.drop_first() =~= rest);
    }
}

} // verus!

//! The hybrid recognizer of the speech server: a streaming model gives live
//! partial results, and after a pause each segment is recognized again by an
//! offline model. This module holds the decisions of one client's stream; the
//! audio samples and the two models stay with the caller, which performs what
//! each step returns.
use vstd::prelude::*;

verus! {

/// Samples replayed per step after a refinement (100 ms at 16 kHz).
pub const FAST_FORWARD_CHUNK: usize = 1600;

/// What the caller does with the samples of one `decode` step.
#[derive(Debug, PartialEq, Eq, Structural)]
pub enum HybridDecode {
    /// A refinement is running: keep the samples to replay later.
    Buffered,
    /// Feed the samples to the streaming model.
    Streamed,
}

/// What the caller does to the streaming model on `reset`.
#[derive(Debug, PartialEq, Eq, Structural)]
pub enum HybridReset {
    /// Reset the streaming model and replay the kept samples in this many
    /// steps of at most 1600 samples, then drop them.
    ResetAndReplay(usize),
    /// A refinement without result is cancelled; the streaming model is left as is.
    CancelRefinement,
    /// Reset the streaming model.
    Reset,
}

/// The state of one hybrid stream.
pub struct HybridStream {
    seg_samples: usize,
    refining: bool,
    refined_text: String,
    buffered_samples: usize,
    seg_idx: u32,
    had_speech: bool,
    silence_samples: usize,
}

/// What a [`HybridStream`] holds, as plain values.
pub struct HybridStreamView {
    /// Samples of the current segment (what the offline model will get).
    pub seg_samples: nat,
    /// A refinement is in progress.
    pub refining: bool,
    /// The refined text of the segment, empty when there is none.
    pub refined_text: Seq<char>,
    /// Samples kept while refining, replayed afterwards.
    pub buffered_samples: nat,
    /// The segment index.
    pub seg_idx: nat,
    /// Speech energy was seen in the current segment.
    pub had_speech: bool,
    /// Consecutive silent samples.
    pub silence_samples: nat,
}

impl View for HybridStream {
    type V = HybridStreamView;

    closed spec fn view(&self) -> HybridStreamView {
        HybridStreamView {
            seg_samples: self.seg_samples as nat,
            refining: self.refining,
            refined_text: self.refined_text@,
            buffered_samples: self.buffered_samples as nat,
            seg_idx: self.seg_idx as nat,
            had_speech: self.had_speech,
            silence_samples: self.silence_samples as nat,
        }
    }
}

/// A pause long enough to refine: at least 1.2 s of silence, at least 0.5 s of
/// segment audio, and speech in the segment.
pub open spec fn refinement_due(o: HybridStreamView, sample_rate: int) -> bool {
    &&& 10 * o.silence_samples >= 12 * sample_rate
    &&& 10 * o.seg_samples >= 5 * sample_rate
    &&& o.had_speech
}

/// The stream after `n` samples whose energy decision is `has_speech`.
pub open spec fn hybrid_decode(o: HybridStreamView, has_speech: bool, n: nat, sample_rate: int) -> (HybridStreamView, HybridDecode) {
    let a = HybridStreamView {
        seg_samples: o.seg_samples + n,
        had_speech: if has_speech { true } else { o.had_speech },
        silence_samples: if has_speech { 0 } else { o.silence_samples + n },
        ..o
    };
    if o.refining {
        (HybridStreamView { buffered_samples: o.buffered_samples + n, ..a }, HybridDecode::Buffered)
    } else if refinement_due(a, sample_rate) {
        (HybridStreamView { refining: true, ..a }, HybridDecode::Streamed)
    } else {
        (a, HybridDecode::Streamed)
    }
}

/// The stream after a reset, and what the caller does.
pub open spec fn hybrid_reset(o: HybridStreamView) -> (HybridStreamView, HybridReset) {
    if o.refined_text.len() > 0 {
        let cleared = HybridStreamView { refined_text: Seq::empty(), seg_idx: o.seg_idx + 1, ..o };
        if o.buffered_samples == 0 {
            (HybridStreamView { refining: false, ..cleared }, HybridReset::ResetAndReplay(0))
        } else {
            (HybridStreamView {
                buffered_samples: 0,
                had_speech: false,
                silence_samples: 0,
                refining: false,
                ..cleared
            }, HybridReset::ResetAndReplay(
                ((o.buffered_samples + 1599) / 1600) as usize,
            ))
        }
    } else if o.refining {
        (HybridStreamView { refining: false, ..o }, HybridReset::CancelRefinement)
    } else {
        (o, HybridReset::Reset)
    }
}

impl HybridStream {
    /// A new stream: segment 0, nothing heard.
    pub fn new() -> (s: Self)
        ensures
            s@ == (HybridStreamView {
                seg_samples: 0,
                refining: false,
                refined_text: Seq::empty(),
                buffered_samples: 0,
                seg_idx: 0,
                had_speech: false,
                silence_samples: 0,
            }),
    {
        HybridStream {
            seg_samples: 0,
            refining: false,
            refined_text: String::new(),
            buffered_samples: 0,
            seg_idx: 0,
            had_speech: false,
            silence_samples: 0,
        }
    }

    /// Whether `decode` can take `n` samples: the counts stay in range.
    pub fn accepts(&self, n: usize) -> (b: bool)
        ensures
            b == (self@.seg_samples + n <= usize::MAX && self@.silence_samples + n <= usize::MAX
                && self@.buffered_samples + n <= usize::MAX),
    {
        n <= usize::MAX - self.seg_samples && n <= usize::MAX - self.silence_samples && n <= usize::MAX
            - self.buffered_samples
    }

    /// Take `n` samples whose energy decision (RMS at least 0.005) is
    /// `has_speech`. They join the segment audio; while a refinement runs they
    /// are kept for later, otherwise they go to the streaming model, and a
    /// refinement starts after 1.2 s of silence following speech in a segment
    /// of at least 0.5 s.
    pub fn decode(&mut self, has_speech: bool, n: usize, sample_rate: i32) -> (r: HybridDecode)
        requires
            old(self)@.seg_samples + n <= usize::MAX,
            old(self)@.silence_samples + n <= usize::MAX,
            old(self)@.buffered_samples + n <= usize::MAX,
        ensures
            (final(self)@, r) == hybrid_decode(old(self)@, has_speech, n as nat, sample_rate as int),
    {
        self.seg_samples = self.seg_samples + n;
        if has_speech {
            self.had_speech = true;
            self.silence_samples = 0;
        } else {
            self.silence_samples = self.silence_samples + n;
        }
        if self.refining {
            self.buffered_samples = self.buffered_samples + n;
            return HybridDecode::Buffered;
        }
        let rate = sample_rate as i128;
        if (self.silence_samples as i128) * 10 >= rate * 12 && (self.seg_samples as i128) * 10 >= rate * 5
            && self.had_speech {
            self.refining = true;
        }
        HybridDecode::Streamed
    }

    /// The text to report: the refined text when there is one, otherwise the
    /// streaming model's partial result.
    pub fn get_text(&self, streaming_text: String) -> (r: String)
        ensures
            r@ == if self@.refined_text.len() > 0 { self@.refined_text } else { streaming_text@ },
    {
        if !self.refined_text.as_str().is_empty() {
            self.refined_text.clone()
        } else {
            streaming_text
        }
    }

    /// An endpoint is ready: a refinement runs or its text waits.
    pub fn is_endpoint(&self) -> (b: bool)
        ensures
            b == (self@.refining || self@.refined_text.len() > 0),
    {
        self.refining || !self.refined_text.as_str().is_empty()
    }

    /// Whether a refinement is in progress.
    pub fn is_refining(&self) -> (b: bool)
        ensures
            b == self@.refining,
    {
        self.refining
    }

    /// The segment index.
    pub fn seg_idx(&self) -> (r: u32)
        ensures
            r == self@.seg_idx,
    {
        self.seg_idx
    }

    /// Reset after a segment was consumed. A refined text is cleared, the
    /// segment index advances, and the kept samples are replayed; a
    /// refinement without result is cancelled; otherwise the streaming model
    /// is reset.
    pub fn reset(&mut self) -> (r: HybridReset)
        requires
            old(self)@.refined_text.len() > 0 ==> old(self)@.seg_idx < u32::MAX,
        ensures
            (final(self)@, r) == hybrid_reset(old(self)@),
    {
        if !self.refined_text.as_str().is_empty() {
            self.refined_text = String::new();
            self.seg_idx = self.seg_idx + 1;
            if self.buffered_samples == 0 {
                self.refining = false;
                return HybridReset::ResetAndReplay(0);
            }
            let steps = self.buffered_samples / FAST_FORWARD_CHUNK
                + if self.buffered_samples % FAST_FORWARD_CHUNK > 0 { 1 } else { 0 };
            proof {
                let b = self.buffered_samples as int;
                assert(steps == (b + 1599) / 1600) by (nonlinear_arith)
                    requires
                        steps == b / 1600 + if b % 1600 > 0 { 1int } else { 0int },
                        b >= 0,
                ;
            }
            self.buffered_samples = 0;
            self.had_speech = false;
            self.silence_samples = 0;
            self.refining = false;
            HybridReset::ResetAndReplay(steps)
        } else if self.refining {
            self.refining = false;
            HybridReset::CancelRefinement
        } else {
            HybridReset::Reset
        }
    }

    /// Start refining: the segment audio is handed over (the count goes back
    /// to 0). Returns whether it is long enough (0.3 s); a shorter one ends
    /// the refinement with no text.
    pub fn begin_refine(&mut self, sample_rate: i32) -> (long_enough: bool)
        ensures
            long_enough == (10 * old(self)@.seg_samples >= 3 * sample_rate),
            final(self)@ == (HybridStreamView {
                seg_samples: 0,
                refining: if long_enough { old(self)@.refining } else { false },
                ..old(self)@
            }),
    {
        let n = self.seg_samples;
        self.seg_samples = 0;
        if (n as i128) * 10 < (sample_rate as i128) * 3 {
            self.refining = false;
            false
        } else {
            true
        }
    }

    /// Finish refining with the offline model's text (or, when it failed, the
    /// streaming result): a non-empty text is kept for delivery, and the
    /// speech and silence counts start over. Returns the text.
    pub fn finish_refine(&mut self, text: String) -> (r: String)
        ensures
            r@ == text@,
            final(self)@ == (HybridStreamView {
                refined_text: if text@.len() > 0 { text@ } else { old(self)@.refined_text },
                had_speech: false,
                silence_samples: 0,
                ..old(self)@
            }),
    {
        if !text.as_str().is_empty() {
            self.refined_text = text.clone();
        }
        self.had_speech = false;
        self.silence_samples = 0;
        text
    }
}

} // verus!

//! Voice activity: the energy decision, the hangover that keeps short pauses inside speech,
//! and the upload filter that decides which captured audio is sent to the cloud
//! recognizer (speech, a flush of silence after it, keep-alive silence).
use vstd::prelude::*;

verus! {

/// Decision from a VAD processing step.
#[derive(Debug, Clone, Copy, PartialEq, Eq, Structural)]
pub enum VadDecision {
    /// Audio chunk contains speech: it should be forwarded.
    Speech,
    /// Audio chunk is silence: it should be dropped.
    Silence,
}

/// The sample at index `k` of little-endian 16-bit PCM.
pub open spec fn pcm_sample(pcm: Seq<u8>, k: int) -> int {
    let u = pcm[2 * k] as int + 256 * (pcm[2 * k + 1] as int);
    if u >= 32768 {
        u - 65536
    } else {
        u
    }
}

/// The sum of the squares of the first `k` samples of 16-bit PCM.
pub open spec fn pcm_sum_squares(pcm: Seq<u8>, k: nat) -> int
    decreases k,
{
    if k == 0 {
        0
    } else {
        pcm_sum_squares(pcm, (k - 1) as nat) + pcm_sample(pcm, k - 1) * pcm_sample(pcm, k - 1)
    }
}

/// The energy decision of the detector: the RMS of the samples, over full
/// scale (32767), reaches `threshold_ppm` millionths. Audio of no whole
/// sample has energy 0. (With `n` samples and sum of squares `S`, the RMS
/// condition `sqrt(S / n) / 32767 >= t / 10^6` is `10^12 * S >= n * (32767 * t)^2`.)
pub open spec fn loud_enough(pcm: Seq<u8>, threshold_ppm: u32) -> bool {
    let n = pcm.len() / 2;
    if n == 0 {
        threshold_ppm == 0
    } else {
        1_000_000_000_000 * pcm_sum_squares(pcm, n as nat) >= n * ((threshold_ppm * 32767) * (threshold_ppm * 32767))
    }
}

/// Longest PCM buffer (bytes) whose energy is computed in 128-bit arithmetic.
pub open spec fn max_energy_bytes() -> int {
    0x4_0000_0000
}

proof fn lemma_sample_square_bound(pcm: Seq<u8>, k: int)
    requires
        0 <= 2 * k + 1 < pcm.len(),
    ensures
        0 <= pcm_sample(pcm, k) * pcm_sample(pcm, k) <= 0x4000_0000,
{
    let s = pcm_sample(pcm, k);
    assert(-32768 <= s <= 32767);
    assert(0 <= s * s <= 0x4000_0000) by (nonlinear_arith)
        requires
            -32768 <= s <= 32767,
    ;
}

/// The sum of the squares of the samples of 16-bit little-endian PCM (a
/// trailing odd byte is ignored).
pub fn pcm_sum_squares_exec(pcm: &[u8]) -> (r: u128)
    requires
        pcm.len() <= max_energy_bytes(),
    ensures
        r == pcm_sum_squares(pcm@, (pcm@.len() / 2) as nat),
        r <= (pcm@.len() / 2) * 0x4000_0000,
{
    let n = pcm.len() / 2;
    let mut acc: u128 = 0;
    let mut k: usize = 0;
    while k < n
        invariant
            k <= n,
            n == pcm@.len() / 2,
            pcm.len() <= max_energy_bytes(),
            acc == pcm_sum_squares(pcm@, k as nat),
            acc <= k * 0x4000_0000,
        decreases n - k,
    {
        let lo = pcm[2 * k] as u32;
        let hi = pcm[2 * k + 1] as u32;
        let u: u32 = lo + hi * 256;
        let s: i64 = if u >= 32768 {
            u as i64 - 65536
        } else {
            u as i64
        };
        proof {
            lemma_sample_square_bound(pcm@, k as int);
            assert(s == pcm_sample(pcm@, k as int));
        }
        let sq: u128 = (s * s) as u128;
        acc = acc + sq;
        k = k + 1;
    }
    acc
}

/// Whether 16-bit PCM is loud enough to be speech (see [`loud_enough`]).
pub fn is_loud(pcm: &[u8], threshold_ppm: u32) -> (b: bool)
    requires
        pcm.len() <= max_energy_bytes(),
    ensures
        b == loud_enough(pcm@, threshold_ppm),
{
    let n = pcm.len() / 2;
    if n == 0 {
        return threshold_ppm == 0;
    }
    let s = pcm_sum_squares_exec(pcm);
    let t: u128 = threshold_ppm as u128 * 32767;
    let nn: u128 = n as u128;
    assert(t * t <= 0x4000_0000_0000_0000_0000_0000) by (nonlinear_arith)
        requires
            t <= 0xffff_ffff * 32767,
    ;
    let tt: u128 = t * t;
    assert(nn * tt <= 0x2_0000_0000 * 0x4000_0000_0000_0000_0000_0000) by (nonlinear_arith)
        requires
            nn <= 0x2_0000_0000,
            tt <= 0x4000_0000_0000_0000_0000_0000,
    ;
    assert(1_000_000_000_000 * s <= 1_000_000_000_000 * (0x2_0000_0000 * 0x4000_0000)) by (nonlinear_arith)
        requires
            s <= nn * 0x4000_0000,
            nn <= 0x2_0000_0000,
    ;
    1_000_000_000_000u128 * s >= nn * tt
}

/// The hangover of the energy-based voice detector: silence is reported only
/// after enough consecutive silent samples follow speech.
pub struct VadFilter {
    energy_threshold_ppm: u32,
    min_silence_samples: usize,
    silence_samples: usize,
    had_speech: bool,
}

/// What a [`VadFilter`] holds, as plain values.
pub struct VadFilterView {
    /// RMS energy over full scale, in millionths, from which audio is speech.
    pub energy_threshold_ppm: u32,
    /// Silent samples that end a speech segment.
    pub min_silence_samples: usize,
    /// Consecutive silent samples seen.
    pub silence_samples: usize,
    /// A speech segment is in progress.
    pub had_speech: bool,
}

impl View for VadFilter {
    type V = VadFilterView;

    closed spec fn view(&self) -> VadFilterView {
        VadFilterView {
            energy_threshold_ppm: self.energy_threshold_ppm,
            min_silence_samples: self.min_silence_samples,
            silence_samples: self.silence_samples,
            had_speech: self.had_speech,
        }
    }
}

/// The filter after one chunk of `chunk_bytes` bytes of 16-bit audio whose
/// energy decision is `has_speech`.
pub open spec fn vad_step(o: VadFilterView, has_speech: bool, chunk_bytes: nat) -> (VadFilterView, VadDecision) {
    if has_speech {
        (VadFilterView { silence_samples: 0, had_speech: true, ..o }, VadDecision::Speech)
    } else {
        let s = (o.silence_samples + chunk_bytes / 2) as usize;
        if o.had_speech && s < o.min_silence_samples {
            (VadFilterView { silence_samples: s, ..o }, VadDecision::Speech)
        } else {
            (VadFilterView { silence_samples: 0, had_speech: false, ..o }, VadDecision::Silence)
        }
    }
}

impl VadFilter {
    /// A filter that takes audio as speech from `energy_threshold_ppm`
    /// millionths of full-scale RMS, with a hangover of `min_silence_ms` at
    /// `sample_rate` Hz.
    pub fn new(energy_threshold_ppm: u32, min_silence_ms: u64, sample_rate: i32) -> (f: Self)
        requires
            min_silence_ms * (sample_rate as usize) <= usize::MAX,
            min_silence_ms <= usize::MAX,
        ensures
            f@.energy_threshold_ppm == energy_threshold_ppm,
            f@.min_silence_samples == min_silence_ms * (sample_rate as usize) / 1000,
            f@.silence_samples == 0,
            !f@.had_speech,
    {
        let ms = min_silence_ms as usize;
        let rate = sample_rate as usize;
        assert(ms * rate <= usize::MAX);
        VadFilter { energy_threshold_ppm, min_silence_samples: (ms * rate) / 1000, silence_samples: 0, had_speech: false }
    }

    /// The default filter: threshold 0.005 (5000 millionths), 300 ms of hangover at 16 kHz.
    pub fn default_16000() -> (f: Self)
        ensures
            f@.energy_threshold_ppm == 5000,
            f@.min_silence_samples == 4800,
            f@.silence_samples == 0,
            !f@.had_speech,
    {
        VadFilter::new(5000, 300, 16000)
    }

    /// Process a chunk of 16-bit PCM and say whether it holds speech. Speech
    /// resets the silence count; silence after speech is still reported as
    /// speech until `min_silence_samples` silent samples have accumulated,
    /// then the utterance ends.
    pub fn process_i16(&mut self, pcm: &[u8]) -> (d: VadDecision)
        requires
            pcm.len() <= max_energy_bytes(),
            old(self)@.silence_samples + pcm.len() / 2 <= usize::MAX,
        ensures
            (final(self)@, d) == vad_step(old(self)@, loud_enough(pcm@, old(self)@.energy_threshold_ppm), pcm@.len()),
    {
        let has_speech = is_loud(pcm, self.energy_threshold_ppm);
        if has_speech {
            self.had_speech = true;
            self.silence_samples = 0;
            VadDecision::Speech
        } else {
            self.silence_samples = self.silence_samples + pcm.len() / 2;
            if self.had_speech && self.silence_samples < self.min_silence_samples {
                VadDecision::Speech
            } else {
                self.had_speech = false;
                self.silence_samples = 0;
                VadDecision::Silence
            }
        }
    }

    /// Whether `process_i16` can take a chunk of `len` bytes: its energy is
    /// computed in 128-bit arithmetic and the silence count stays in range.
    pub fn accepts(&self, len: usize) -> (b: bool)
        ensures
            b == (len <= max_energy_bytes() && self@.silence_samples + len / 2 <= usize::MAX),
    {
        len as u64 <= 0x4_0000_0000u64 && len / 2 <= usize::MAX - self.silence_samples
    }

    /// Reset internal state for a new utterance or session.
    pub fn reset(&mut self)
        ensures
            final(self)@ == (VadFilterView { silence_samples: 0, had_speech: false, ..old(self)@ }),
    {
        self.silence_samples = 0;
        self.had_speech = false;
    }

    /// Whether the filter is currently in a speech segment.
    pub fn is_speech(&self) -> (b: bool)
        ensures
            b == self@.had_speech,
    {
        self.had_speech
    }
}

} // verus!

verus! {

/// Samples of silence (1 s at 16 kHz) still sent after speech ends, so the
/// recognizer can close the sentence.
pub const FLUSH_TARGET_SAMPLES: usize = 16000;

/// Bytes of keep-alive silence (20 ms of 16 kHz, 16-bit mono audio).
pub const KEEPALIVE_BYTES: usize = 640;

/// Longest pause without any audio sent, in milliseconds, before keep-alive silence goes out.
pub const KEEPALIVE_INTERVAL_MS: u64 = 5000;

/// What to send for one captured chunk.
#[derive(Debug, PartialEq, Eq, Structural)]
pub enum UploadSend {
    /// The chunk as captured.
    Chunk,
    /// This many zero bytes in its place.
    Zeros(usize),
    /// Nothing.
    Nothing,
}

/// Decides which captured audio reaches the cloud recognizer, and counts the
/// bytes sent (billing is by audio duration).
pub struct UploadFilter {
    vad_enabled: bool,
    count_all: bool,
    flush_remaining: usize,
    last_send_ms: u64,
    bytes_sent: u64,
}

/// What a [`UploadFilter`] holds, as plain values.
pub struct UploadFilterView {
    /// Audio passes through the voice detector.
    pub vad_enabled: bool,
    /// Without the detector, sent bytes are still counted (cloud recognizer).
    pub count_all: bool,
    /// Silent samples still to send after speech ended.
    pub flush_remaining: usize,
    /// Clock reading (ms) of the last audio sent.
    pub last_send_ms: u64,
    /// Bytes sent so far (wrapping, as an atomic counter adds).
    pub bytes_sent: u64,
}

impl View for UploadFilter {
    type V = UploadFilterView;

    closed spec fn view(&self) -> UploadFilterView {
        UploadFilterView {
            vad_enabled: self.vad_enabled,
            count_all: self.count_all,
            flush_remaining: self.flush_remaining,
            last_send_ms: self.last_send_ms,
            bytes_sent: self.bytes_sent,
        }
    }
}

/// `a + b` as a wrapping 64-bit counter.
pub open spec fn wrap_add(a: u64, b: int) -> u64 {
    if a + b > u64::MAX {
        (a + b - 0x1_0000_0000_0000_0000) as u64
    } else {
        (a + b) as u64
    }
}

/// The upload filter after a chunk of `chunk_len` bytes at `now_ms`: the detector's
/// state before (`prev_speech`) and after (`now_speech`) the chunk and its decision.
pub open spec fn upload_step(
    o: UploadFilterView,
    chunk_len: nat,
    prev_speech: bool,
    decision: VadDecision,
    now_speech: bool,
    now_ms: u64,
) -> (UploadFilterView, UploadSend) {
    if !o.vad_enabled {
        (UploadFilterView {
            bytes_sent: if o.count_all { wrap_add(o.bytes_sent, chunk_len as int) } else { o.bytes_sent },
            ..o
        }, UploadSend::Chunk)
    } else {
        let flushing: int = if prev_speech && !now_speech { FLUSH_TARGET_SAMPLES as int } else { o.flush_remaining as int };
        if decision == VadDecision::Speech {
            (UploadFilterView {
                flush_remaining: flushing as usize,
                last_send_ms: now_ms,
                bytes_sent: wrap_add(o.bytes_sent, chunk_len as int),
                ..o
            }, UploadSend::Chunk)
        } else if flushing > 0 {
            let samples: int = if flushing < chunk_len / 2 { flushing } else { (chunk_len / 2) as int };
            let send = samples * 2;
            (UploadFilterView {
                flush_remaining: (flushing - samples) as usize,
                last_send_ms: now_ms,
                bytes_sent: wrap_add(o.bytes_sent, send),
                ..o
            }, if send < chunk_len { UploadSend::Zeros(send as usize) } else { UploadSend::Chunk })
        } else {
            let elapsed: int = if now_ms >= o.last_send_ms { now_ms - o.last_send_ms } else { 0 };
            if elapsed / 1000 >= 5 {
                (UploadFilterView {
                    flush_remaining: 0,
                    last_send_ms: now_ms,
                    bytes_sent: wrap_add(o.bytes_sent, KEEPALIVE_BYTES as int),
                    ..o
                }, UploadSend::Zeros(KEEPALIVE_BYTES))
            } else {
                (UploadFilterView { flush_remaining: 0, ..o }, UploadSend::Nothing)
            }
        }
    }
}

impl UploadFilter {
    /// An upload filter that has sent nothing, with the clock at `now_ms`.
    pub fn new(vad_enabled: bool, count_all: bool, now_ms: u64) -> (g: Self)
        ensures
            g@ == (UploadFilterView {
                vad_enabled,
                count_all,
                flush_remaining: 0,
                last_send_ms: now_ms,
                bytes_sent: 0,
            }),
    {
        UploadFilter { vad_enabled, count_all, flush_remaining: 0, last_send_ms: now_ms, bytes_sent: 0 }
    }

    /// Bytes sent so far.
    pub fn bytes_sent(&self) -> (r: u64)
        ensures
            r == self@.bytes_sent,
    {
        self.bytes_sent
    }

    /// Decide what to send for one captured chunk. With the detector on: speech
    /// is sent; when speech turns to silence, up to one second of silence is
    /// still sent as zeros; after that silence is dropped, except 20 ms of
    /// zeros whenever five seconds passed without sending, so the service keeps
    /// the connection.
    pub fn on_chunk(
        &mut self,
        chunk_len: usize,
        prev_speech: bool,
        decision: VadDecision,
        now_speech: bool,
        now_ms: u64,
    ) -> (r: UploadSend)
        ensures
            (final(self)@, r) == upload_step(old(self)@, chunk_len as nat, prev_speech, decision, now_speech, now_ms),
    {
        if !self.vad_enabled {
            if self.count_all {
                self.bytes_sent = self.bytes_sent.wrapping_add(chunk_len as u64);
            }
            return UploadSend::Chunk;
        }
        if prev_speech && !now_speech {
            self.flush_remaining = FLUSH_TARGET_SAMPLES;
        }
        let flushing = self.flush_remaining;
        if decision == VadDecision::Speech {
            self.bytes_sent = self.bytes_sent.wrapping_add(chunk_len as u64);
            self.last_send_ms = now_ms;
            UploadSend::Chunk
        } else if flushing > 0 {
            let chunk_samples = chunk_len / 2;
            let samples = if flushing < chunk_samples { flushing } else { chunk_samples };
            self.flush_remaining = flushing - samples;
            let send = samples * 2;
            self.bytes_sent = self.bytes_sent.wrapping_add(send as u64);
            self.last_send_ms = now_ms;
            if send < chunk_len {
                UploadSend::Zeros(send)
            } else {
                UploadSend::Chunk
            }
        } else {
            let elapsed: u64 = if now_ms >= self.last_send_ms { now_ms - self.last_send_ms } else { 0 };
            if elapsed / 1000 >= 5 {
                self.bytes_sent = self.bytes_sent.wrapping_add(KEEPALIVE_BYTES as u64);
                self.last_send_ms = now_ms;
                UploadSend::Zeros(KEEPALIVE_BYTES)
            } else {
                UploadSend::Nothing
            }
        }
    }
}

/// Seconds of audio billed for `sent_bytes` of 16 kHz, 16-bit mono PCM
/// (32000 bytes per second), a started second counting whole.
pub fn usage_seconds(sent_bytes: u64) -> (r: u64)
    requires
        sent_bytes <= u64::MAX - 31999,
    ensures
        r == (sent_bytes + 31999) / 32000,
{
    (sent_bytes + 31999) / 32000
}

} // verus!

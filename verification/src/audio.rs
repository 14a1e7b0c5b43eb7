//! Audio framing: the WAV header of a recording, the fixed-size PCM chunks
//! the recognizers receive, and the selection of speech for test recordings.
use vstd::prelude::*;
use crate::text::{chars_of, contains_chars, contains_seq, str_eq, str_is_empty};
use crate::vad::{is_loud, loud_enough, max_energy_bytes};

verus! {

/// An audio input device, by name and enumeration index.
pub struct AudioDeviceInfo {
    pub name: String,
    pub index: usize,
}

/// Little-endian bytes of a `u32`.
pub open spec fn le_u32(n: u32) -> Seq<u8> {
    seq![(n % 256) as u8, ((n / 256) % 256) as u8, ((n / 65536) % 256) as u8, (n / 16777216) as u8]
}

/// Little-endian bytes of a `u16`.
pub open spec fn le_u16(n: u16) -> Seq<u8> {
    seq![(n % 256) as u8, (n / 256) as u8]
}

/// The bytes of `RIFF`, `WAVE`, `fmt ` and `data`.
pub open spec fn riff_tag() -> Seq<u8> { seq![0x52u8, 0x49u8, 0x46u8, 0x46u8] }
pub open spec fn wave_tag() -> Seq<u8> { seq![0x57u8, 0x41u8, 0x56u8, 0x45u8] }
pub open spec fn fmt_tag() -> Seq<u8> { seq![0x66u8, 0x6du8, 0x74u8, 0x20u8] }
pub open spec fn data_tag() -> Seq<u8> { seq![0x64u8, 0x61u8, 0x74u8, 0x61u8] }

/// The 44-byte RIFF/WAVE header of linear PCM audio.
pub open spec fn wav_header(data_len: u32, sample_rate: u32, bits_per_sample: u16, channels: u16) -> Seq<u8> {
    let byte_rate = (sample_rate * channels * bits_per_sample / 8) as u32;
    let block_align = (channels * bits_per_sample / 8) as u16;
    riff_tag() + le_u32((36 + data_len) as u32) + wave_tag() + fmt_tag() + le_u32(16) + le_u16(1)
        + le_u16(channels) + le_u32(sample_rate) + le_u32(byte_rate) + le_u16(block_align)
        + le_u16(bits_per_sample) + data_tag() + le_u32(data_len)
}

fn push_le_u32(v: &mut Vec<u8>, n: u32)
    ensures
        final(v)@ == old(v)@ + le_u32(n),
{
    let ghost v0 = v@;
    v.push((n % 256) as u8);
    v.push(((n / 256) % 256) as u8);
    v.push(((n / 65536) % 256) as u8);
    v.push((n / 16777216) as u8);
    proof {
        assert(v@ =~= v0 + le_u32(n));
    }
}

fn push_le_u16(v: &mut Vec<u8>, n: u16)
    ensures
        final(v)@ == old(v)@ + le_u16(n),
{
    let ghost v0 = v@;
    v.push((n % 256) as u8);
    v.push((n / 256) as u8);
    proof {
        assert(v@ =~= v0 + le_u16(n));
    }
}

fn push_tag(v: &mut Vec<u8>, a: u8, b: u8, c: u8, d: u8)
    ensures
        final(v)@ == old(v)@ + seq![a, b, c, d],
{
    let ghost v0 = v@;
    v.push(a);
    v.push(b);
    v.push(c);
    v.push(d);
    proof {
        assert(v@ =~= v0 + seq![a, b, c, d]);
    }
}

/// Build a valid 44-byte RIFF WAV header.
pub fn create_wav_header(data_len: u32, sample_rate: u32, bits_per_sample: u16, channels: u16) -> (r: Vec<u8>)
    requires
        data_len <= u32::MAX - 36,
        sample_rate * channels <= u32::MAX,
        sample_rate * channels * bits_per_sample <= u32::MAX,
        channels * bits_per_sample <= u16::MAX,
    ensures
        r@ == wav_header(data_len, sample_rate, bits_per_sample, channels),
        r@.len() == 44,
{
    let byte_rate = sample_rate * channels as u32 * bits_per_sample as u32 / 8;
    let block_align = channels * bits_per_sample / 8;
    let file_size = 36 + data_len;
    let mut header: Vec<u8> = Vec::new();
    push_tag(&mut header, 0x52, 0x49, 0x46, 0x46);
    push_le_u32(&mut header, file_size);
    push_tag(&mut header, 0x57, 0x41, 0x56, 0x45);
    push_tag(&mut header, 0x66, 0x6d, 0x74, 0x20);
    push_le_u32(&mut header, 16);
    push_le_u16(&mut header, 1);
    push_le_u16(&mut header, channels);
    push_le_u32(&mut header, sample_rate);
    push_le_u32(&mut header, byte_rate);
    push_le_u16(&mut header, block_align);
    push_le_u16(&mut header, bits_per_sample);
    push_tag(&mut header, 0x64, 0x61, 0x74, 0x61);
    push_le_u32(&mut header, data_len);
    header
}

} // verus!

verus! {

/// Bytes of PCM sent to a recognizer at a time: 200 ms of 16 kHz, 16-bit mono audio.
pub const PCM_CHUNK_BYTES: usize = 6400;

/// The concatenation of the chunks.
pub open spec fn concat(chunks: Seq<Seq<u8>>) -> Seq<u8>
    decreases chunks.len(),
{
    if chunks.len() == 0 {
        Seq::empty()
    } else {
        concat(chunks.drop_last()) + chunks.last()
    }
}

proof fn lemma_concat_push(chunks: Seq<Seq<u8>>, c: Seq<u8>)
    ensures
        concat(chunks.push(c)) == concat(chunks) + c,
{
    assert(chunks.push(c).drop_last() =~= chunks);
}

/// The views of a vector of byte vectors.
pub open spec fn byte_chunks(v: Seq<Vec<u8>>) -> Seq<Seq<u8>> {
    v.map_values(|c: Vec<u8>| c@)
}

/// Split `data` into pieces of `size` bytes; the last piece may be shorter
/// (`<[u8]>::chunks`).
pub fn split_chunks(data: &[u8], size: usize) -> (r: Vec<Vec<u8>>)
    requires
        size > 0,
    ensures
        concat(byte_chunks(r@)) == data@,
        forall|i: int| 0 <= i < r@.len() - 1 ==> (#[trigger] r@[i])@.len() == size,
        forall|i: int| 0 <= i < r@.len() ==> 0 < (#[trigger] r@[i])@.len() <= size,
        r@.len() == (data@.len() + size - 1) / size as int,
{
    let mut r: Vec<Vec<u8>> = Vec::new();
    let mut start: usize = 0;
    assert(0 == 0 * size) by (nonlinear_arith);
    while start < data.len()
        invariant
            size > 0,
            start <= data@.len(),
            r@.len() > 0 ==> start < data@.len(),
            start == r@.len() * size,
            concat(byte_chunks(r@)) == data@.take(start as int),
            forall|i: int| 0 <= i < r@.len() ==> (#[trigger] r@[i])@.len() == size,
        decreases data@.len() - start,
    {
        let end: usize = if data.len() - start >= size { start + size } else { data.len() };
        let mut c: Vec<u8> = Vec::new();
        let mut k: usize = start;
        while k < end
            invariant
                start <= k <= end <= data@.len(),
                c@ == data@.subrange(start as int, k as int),
            decreases end - k,
        {
            c.push(data[k]);
            proof {
                assert(data@.subrange(start as int, k + 1) =~= data@.subrange(start as int, k as int).push(data@[k as int]));
            }
            k = k + 1;
        }
        let ghost r0 = r@;
        r.push(c);
        proof {
            assert(byte_chunks(r@) =~= byte_chunks(r0).push(c@));
            lemma_concat_push(byte_chunks(r0), c@);
            assert(data@.take(end as int) =~= data@.take(start as int) + data@.subrange(start as int, end as int));
            if end < data@.len() {
                assert(end == start + size);
            }
        }
        if end < data.len() {
            proof {
                assert(end == (r0.len() + 1) * size) by (nonlinear_arith)
                    requires
                        end == start + size,
                        start == r0.len() * size,
                ;
            }
            start = end;
        } else {
            proof {
                assert(data@.take(end as int) =~= data@);
                assert(forall|i: int| 0 <= i < r@.len() - 1 ==> (#[trigger] r@[i])@.len() == size);
                assert(r@.len() == (data@.len() + size - 1) / size as int) by (nonlinear_arith)
                    requires
                        r@.len() == r0.len() + 1,
                        start == r0.len() * size,
                        start < data@.len(),
                        data@.len() <= start + size,
                        size > 0,
                ;
            }
            return r;
        }
    }
    proof {
        assert(data@.take(start as int) =~= data@);
        assert(r@.len() == 0);
        assert(data@.len() == 0);
        assert((0 + size - 1) / size as int == 0) by (nonlinear_arith)
            requires
                size > 0,
        ;
    }
    r
}

} // verus!

verus! {

fn copy_range(data: &Vec<u8>, start: usize, end: usize) -> (c: Vec<u8>)
    requires
        start <= end <= data@.len(),
    ensures
        c@ == data@.subrange(start as int, end as int),
{
    let mut c: Vec<u8> = Vec::new();
    let mut k: usize = start;
    while k < end
        invariant
            start <= k <= end <= data@.len(),
            c@ == data@.subrange(start as int, k as int),
        decreases end - k,
    {
        c.push(data[k]);
        proof {
            assert(data@.subrange(start as int, k + 1) =~= data@.subrange(start as int, k as int).push(
                data@[k as int],
            ));
        }
        k = k + 1;
    }
    c
}

/// Collects captured PCM bytes and hands them out in chunks of [`PCM_CHUNK_BYTES`].
pub struct PcmChunker {
    buf: Vec<u8>,
}

impl View for PcmChunker {
    type V = Seq<u8>;

    closed spec fn view(&self) -> Seq<u8> {
        self.buf@
    }
}

impl PcmChunker {
    /// A chunker holding no bytes.
    pub fn new() -> (c: Self)
        ensures
            c@ == Seq::<u8>::empty(),
    {
        PcmChunker { buf: Vec::new() }
    }

    /// Add captured bytes; every complete chunk now buffered is handed out, in
    /// order, and fewer than a chunk's worth of bytes stay buffered.
    pub fn push(&mut self, bytes: &[u8]) -> (chunks: Vec<Vec<u8>>)
        ensures
            concat(byte_chunks(chunks@)) + final(self)@ == old(self)@ + bytes@,
            forall|i: int| 0 <= i < chunks@.len() ==> (#[trigger] chunks@[i])@.len() == PCM_CHUNK_BYTES,
            final(self)@.len() < PCM_CHUNK_BYTES,
    {
        let mut all: Vec<u8> = Vec::new();
        std::mem::swap(&mut all, &mut self.buf);
        let ghost a0 = all@;
        let mut k: usize = 0;
        while k < bytes.len()
            invariant
                k <= bytes@.len(),
                all@ == a0 + bytes@.take(k as int),
            decreases bytes@.len() - k,
        {
            all.push(bytes[k]);
            proof {
                assert(bytes@.take(k + 1) =~= bytes@.take(k as int).push(bytes@[k as int]));
            }
            k = k + 1;
        }
        proof {
            assert(bytes@.take(bytes@.len() as int) =~= bytes@);
        }
        let mut chunks: Vec<Vec<u8>> = Vec::new();
        let mut pos: usize = 0;
        while all.len() - pos >= PCM_CHUNK_BYTES
            invariant
                pos <= all@.len(),
                concat(byte_chunks(chunks@)) == all@.take(pos as int),
                forall|i: int| 0 <= i < chunks@.len() ==> (#[trigger] chunks@[i])@.len() == PCM_CHUNK_BYTES,
            decreases all@.len() - pos,
        {
            let c = copy_range(&all, pos, pos + PCM_CHUNK_BYTES);
            let ghost ch0 = chunks@;
            chunks.push(c);
            proof {
                assert(byte_chunks(chunks@) =~= byte_chunks(ch0).push(c@));
                lemma_concat_push(byte_chunks(ch0), c@);
                assert(all@.take(pos + PCM_CHUNK_BYTES) =~= all@.take(pos as int) + c@);
            }
            pos = pos + PCM_CHUNK_BYTES;
        }
        let n = all.len();
        self.buf = copy_range(&all, pos, n);
        proof {
            assert(all@.take(pos as int) + all@.subrange(pos as int, n as int) =~= all@);
        }
        chunks
    }

    /// Hand out what is buffered, if anything (when capture stops).
    pub fn flush(&mut self) -> (r: Option<Vec<u8>>)
        ensures
            old(self)@.len() == 0 ==> r is None,
            old(self)@.len() > 0 ==> r is Some && r->0@ == old(self)@,
            final(self)@ == Seq::<u8>::empty(),
    {
        if self.buf.len() == 0 {
            return None;
        }
        let mut out: Vec<u8> = Vec::new();
        std::mem::swap(&mut out, &mut self.buf);
        Some(out)
    }
}

} // verus!

verus! {

/// Samples of trailing silence (0.3 s at 16 kHz) that end a speech segment.
pub const SEGMENT_SILENCE_SAMPLES: usize = 4800;

/// RMS energy over full scale, in millionths, from which a test-recording
/// chunk is speech (0.005).
pub const SEGMENT_SPEECH_PPM: u32 = 5000;

/// A test-recording chunk is speech: it holds a sample and is loud enough.
pub open spec fn speech_chunk(chunk: Seq<u8>) -> bool {
    chunk.len() >= 2 && loud_enough(chunk, SEGMENT_SPEECH_PPM)
}

/// Keeps the speech of a test recording: chunks classified as speech, with up
/// to 0.3 s of trailing silence, are collected into segments.
pub struct SegmentRecorder {
    raw: Vec<u8>,
    speech_buffer: Vec<u8>,
    silence_samples: usize,
    had_speech: bool,
    total_speech_samples: usize,
    output: Vec<u8>,
}

/// What a [`SegmentRecorder`] holds, as plain values.
pub struct SegmentRecorderView {
    /// Every byte captured.
    pub raw: Seq<u8>,
    /// The segment being collected.
    pub speech_buffer: Seq<u8>,
    /// Consecutive silent samples since the last speech.
    pub silence_samples: usize,
    /// The current segment holds speech.
    pub had_speech: bool,
    /// Samples of speech moved to the output.
    pub total_speech_samples: usize,
    /// Completed segments.
    pub output: Seq<u8>,
}

impl View for SegmentRecorder {
    type V = SegmentRecorderView;

    closed spec fn view(&self) -> SegmentRecorderView {
        SegmentRecorderView {
            raw: self.raw@,
            speech_buffer: self.speech_buffer@,
            silence_samples: self.silence_samples,
            had_speech: self.had_speech,
            total_speech_samples: self.total_speech_samples,
            output: self.output@,
        }
    }
}

/// The recorder after one chunk, classified as speech or not.
pub open spec fn segment_step(o: SegmentRecorderView, chunk: Seq<u8>, is_speech: bool) -> SegmentRecorderView {
    let raw = o.raw + chunk;
    if is_speech {
        SegmentRecorderView {
            raw,
            speech_buffer: o.speech_buffer + chunk,
            silence_samples: 0,
            had_speech: true,
            ..o
        }
    } else {
        let s = (o.silence_samples + chunk.len() / 2) as usize;
        let buf = if o.speech_buffer.len() > 0 && s < SEGMENT_SILENCE_SAMPLES {
            o.speech_buffer + chunk
        } else {
            o.speech_buffer
        };
        if s >= SEGMENT_SILENCE_SAMPLES && o.had_speech && buf.len() > 0 {
            SegmentRecorderView {
                raw,
                speech_buffer: Seq::empty(),
                silence_samples: s,
                had_speech: false,
                total_speech_samples: (o.total_speech_samples + buf.len() / 2) as usize,
                output: o.output + buf,
            }
        } else {
            SegmentRecorderView { raw, speech_buffer: buf, silence_samples: s, ..o }
        }
    }
}

fn append_bytes(a: &mut Vec<u8>, b: &[u8])
    ensures
        final(a)@ == old(a)@ + b@,
{
    let ghost a0 = a@;
    let mut k: usize = 0;
    while k < b.len()
        invariant
            k <= b@.len(),
            a@ == a0 + b@.take(k as int),
        decreases b@.len() - k,
    {
        a.push(b[k]);
        proof {
            assert(b@.take(k + 1) =~= b@.take(k as int).push(b@[k as int]));
        }
        k = k + 1;
    }
    proof {
        assert(b@.take(b@.len() as int) =~= b@);
    }
}

impl SegmentRecorder {
    /// A recorder that has captured nothing.
    pub fn new() -> (r: Self)
        ensures
            r@.raw == Seq::<u8>::empty(),
            r@.speech_buffer == Seq::<u8>::empty(),
            r@.silence_samples == 0,
            !r@.had_speech,
            r@.total_speech_samples == 0,
            r@.output == Seq::<u8>::empty(),
    {
        SegmentRecorder {
            raw: Vec::new(),
            speech_buffer: Vec::new(),
            silence_samples: 0,
            had_speech: false,
            total_speech_samples: 0,
            output: Vec::new(),
        }
    }

    /// Whether `on_chunk` can take a chunk of `len` bytes: whole samples, small
    /// enough for the energy computation, and the counts stay in range.
    pub fn accepts(&self, len: usize) -> (b: bool)
        ensures
            b == (len % 2 == 0 && len <= max_energy_bytes() && self@.silence_samples + len / 2 <= usize::MAX
                && self@.total_speech_samples + (self@.speech_buffer.len() + len) / 2 <= usize::MAX),
    {
        if len % 2 != 0 {
            return false;
        }
        let b = self.speech_buffer.len();
        assert((b + len) / 2 == b / 2 + len / 2) by (nonlinear_arith)
            requires
                len % 2 == 0,
        ;
        len as u64 <= 0x4_0000_0000u64 && len / 2 <= usize::MAX - self.silence_samples && b / 2 + len / 2
            <= usize::MAX - self.total_speech_samples
    }

    /// Whether `finish` can be called: the speech count stays in range.
    pub fn can_finish(&self) -> (b: bool)
        ensures
            b == (self@.total_speech_samples + self@.speech_buffer.len() / 2 <= usize::MAX),
    {
        self.speech_buffer.len() / 2 <= usize::MAX - self.total_speech_samples
    }

    /// Take one captured chunk of 16-bit PCM. It is speech when its RMS
    /// energy reaches 0.005 of full scale (an empty chunk is silence). A
    /// segment ends after 0.3 s of silence that follows speech.
    pub fn on_chunk(&mut self, chunk: &[u8])
        requires
            chunk@.len() % 2 == 0,
            chunk@.len() <= max_energy_bytes(),
            old(self)@.silence_samples + chunk@.len() / 2 <= usize::MAX,
            old(self)@.total_speech_samples + (old(self)@.speech_buffer.len() + chunk@.len()) / 2
                <= usize::MAX,
        ensures
            final(self)@ == segment_step(old(self)@, chunk@, speech_chunk(chunk@)),
    {
        let is_speech = chunk.len() >= 2 && is_loud(chunk, SEGMENT_SPEECH_PPM);
        append_bytes(&mut self.raw, chunk);
        if is_speech {
            append_bytes(&mut self.speech_buffer, chunk);
            self.silence_samples = 0;
            self.had_speech = true;
        } else {
            self.silence_samples = self.silence_samples + chunk.len() / 2;
            if self.speech_buffer.len() > 0 && self.silence_samples < SEGMENT_SILENCE_SAMPLES {
                append_bytes(&mut self.speech_buffer, chunk);
            }
            if self.silence_samples >= SEGMENT_SILENCE_SAMPLES && self.had_speech
                && self.speech_buffer.len() > 0 {
                let mut seg: Vec<u8> = Vec::new();
                std::mem::swap(&mut seg, &mut self.speech_buffer);
                append_bytes(&mut self.output, seg.as_slice());
                self.total_speech_samples = self.total_speech_samples + seg.len() / 2;
                self.had_speech = false;
            }
        }
    }

    /// Finish the recording: a segment still collecting speech is kept. The
    /// speech is saved when it is longer than 100 ms (1600 bytes), otherwise
    /// the whole capture. Returns the audio to save and the number of speech samples.
    pub fn finish(self) -> (r: (Vec<u8>, usize))
        requires
            self@.total_speech_samples + self@.speech_buffer.len() / 2 <= usize::MAX,
        ensures
            ({
                let o = self@;
                let keep = o.had_speech && o.speech_buffer.len() > 0;
                let out = if keep { o.output + o.speech_buffer } else { o.output };
                &&& r.0@ == if out.len() > 1600 { out } else { o.raw }
                &&& r.1 == if keep {
                    o.total_speech_samples + o.speech_buffer.len() / 2
                } else {
                    o.total_speech_samples as int
                }
            }),
    {
        let mut output = self.output;
        let mut total = self.total_speech_samples;
        if self.had_speech && self.speech_buffer.len() > 0 {
            append_bytes(&mut output, self.speech_buffer.as_slice());
            total = total + self.speech_buffer.len() / 2;
        }
        if output.len() > 1600 {
            (output, total)
        } else {
            (self.raw, total)
        }
    }
}

} // verus!

verus! {

/// `str::to_lowercase` of a string: its Unicode lowercase mapping.
pub uninterp spec fn spec_to_lowercase(s: Seq<char>) -> Seq<char>;

/// The lowercase form of a string, from `str::to_lowercase`.
#[verifier::external_body]
pub(crate) fn to_lowercase_str(s: &str) -> (r: String)
    ensures
        r@ == spec_to_lowercase(s@),
{
    s.to_lowercase()
}

/// A device name matches the wanted name: the lowercase wanted name occurs in
/// the lowercase device name.
pub open spec fn device_name_matches(name: Seq<char>, wanted: Seq<char>) -> bool {
    contains_seq(spec_to_lowercase(name), spec_to_lowercase(wanted))
}

/// The default device is meant: no name, an empty one, or `Default`.
pub open spec fn wants_default_device(wanted: Option<Seq<char>>) -> bool {
    match wanted {
        None => true,
        Some(w) => w.len() == 0 || w == "Default"@,
    }
}

/// The input device to capture from, among the devices named `names`:
/// `None` for the default device, which is used when no name, an empty name
/// or `Default` is wanted, and when no device name contains the wanted name
/// (case-insensitively); otherwise the first device whose name does.
pub fn choose_input_device(names: &Vec<String>, wanted: Option<&str>) -> (r: Option<usize>)
    ensures
        ({
            let w = match wanted {
                Some(x) => Some(x@),
                None => None,
            };
            if wants_default_device(w) {
                r is None
            } else {
                match r {
                    Some(i) => {
                        &&& i < names@.len()
                        &&& device_name_matches(names@[i as int]@, w->0)
                        &&& forall|j: int| 0 <= j < i ==> !device_name_matches(#[trigger] names@[j]@, w->0)
                    },
                    None => forall|j: int|
                        0 <= j < names@.len() ==> !device_name_matches(#[trigger] names@[j]@, w->0),
                }
            }
        }),
{
    let name = match wanted {
        None => return None,
        Some(x) => x,
    };
    if str_is_empty(name) || str_eq(name, "Default") {
        return None;
    }
    let lower = chars_of(to_lowercase_str(name).as_str());
    let mut i: usize = 0;
    while i < names.len()
        invariant
            i <= names@.len(),
            lower@ == spec_to_lowercase(name@),
            wanted == Some(name),
            !wants_default_device(Some(name@)),
            forall|j: int| 0 <= j < i ==> !device_name_matches(#[trigger] names@[j]@, name@),
        decreases names@.len() - i,
    {
        let dev = chars_of(to_lowercase_str(names[i].as_str()).as_str());
        if contains_chars(dev.as_slice(), lower.as_slice()) {
            proof {
                assert(device_name_matches(names@[i as int]@, name@));
            }
            return Some(i);
        }
        i = i + 1;
    }
    None
}

} // verus!

//! Test recordings: the WAV file saved for captured audio, its file name, and
//! the listing of saved recordings, newest name first.
use vstd::prelude::*;
use crate::audio::{create_wav_header, wav_header};
use crate::tencent::key_lt;
use crate::text::{append_str, chars_of, decimal, string_from_chars, u64_to_decimal};

verus! {

/// A saved test recording.
pub struct RecordingInfo {
    pub filename: String,
    pub path: String,
    pub size_bytes: u64,
    pub created: String,
}

/// `name` has the extension `wav`: it ends in `.wav` after a non-empty stem
/// (a name such as `.wav` has no extension).
pub open spec fn is_wav_name(name: Seq<char>) -> bool {
    name.len() > 4 && name.subrange(name.len() - 4, name.len() as int) == ".wav"@
}

/// Whether a file name has the extension `wav`.
pub fn has_wav_extension(name: &str) -> (b: bool)
    ensures
        b == is_wav_name(name@),
{
    proof {
        reveal_strlit(".wav");
    }
    let v = chars_of(name);
    let n = v.len();
    if n <= 4 {
        return false;
    }
    let r = v[n - 4] == '.' && v[n - 3] == 'w' && v[n - 2] == 'a' && v[n - 1] == 'v';
    proof {
        let tail = name@.subrange(n - 4, n as int);
        if r {
            assert(tail =~= ".wav"@);
        } else {
            if tail == ".wav"@ {
                assert(tail[0] == v@[n - 4]);
                assert(tail[1] == v@[n - 3]);
                assert(tail[2] == v@[n - 2]);
                assert(tail[3] == v@[n - 1]);
            }
        }
    }
    r
}

/// `x` inserted into a listing sorted newest name first: before the first
/// recording whose name sorts before its own, after those with an equal name.
pub open spec fn insert_desc(s: Seq<RecordingInfo>, x: RecordingInfo) -> Seq<RecordingInfo>
    decreases s.len(),
{
    if s.len() == 0 {
        seq![x]
    } else if key_lt(s[0].filename@, x.filename@) {
        seq![x] + s
    } else {
        seq![s[0]] + insert_desc(s.drop_first(), x)
    }
}

/// The recordings sorted by file name, greatest first; equal names keep their
/// order (a stable sort).
pub open spec fn sort_desc(s: Seq<RecordingInfo>) -> Seq<RecordingInfo>
    decreases s.len(),
{
    if s.len() == 0 {
        s
    } else {
        insert_desc(sort_desc(s.drop_last()), s.last())
    }
}

/// The entries that are WAV files, in their order.
pub open spec fn wav_only(s: Seq<RecordingInfo>) -> Seq<RecordingInfo>
    decreases s.len(),
{
    if s.len() == 0 {
        s
    } else if is_wav_name(s.last().filename@) {
        wav_only(s.drop_last()).push(s.last())
    } else {
        wav_only(s.drop_last())
    }
}

/// The listing of saved recordings: the WAV files among the directory
/// entries, sorted by file name, greatest first.
pub open spec fn recording_listing(entries: Seq<RecordingInfo>) -> Seq<RecordingInfo> {
    sort_desc(wav_only(entries))
}

proof fn lemma_insert_desc_at(s: Seq<RecordingInfo>, x: RecordingInfo, j: int)
    requires
        0 <= j <= s.len(),
        forall|k: int| 0 <= k < j ==> !key_lt(#[trigger] s[k].filename@, x.filename@),
        j < s.len() ==> key_lt(s[j].filename@, x.filename@),
    ensures
        insert_desc(s, x) == s.take(j) + seq![x] + s.skip(j),
    decreases j,
{
    if j == 0 {
        if s.len() == 0 {
            assert(s.take(0) + seq![x] + s.skip(0) =~= seq![x]);
        } else {
            assert(s.take(0) + seq![x] + s.skip(0) =~= seq![x] + s);
        }
    } else {
        assert(!key_lt(s[0].filename@, x.filename@));
        assert forall|k: int| 0 <= k < j - 1 implies !key_lt(#[trigger] s.drop_first()[k].filename@, x.filename@) by {
            assert(s.drop_first()[k] == s[k + 1]);
        }
        if j - 1 < s.drop_first().len() {
            assert(s.drop_first()[j - 1] == s[j]);
        }
        lemma_insert_desc_at(s.drop_first(), x, j - 1);
        assert(seq![s[0]] + (s.drop_first().take(j - 1) + seq![x] + s.drop_first().skip(j - 1))
            =~= s.take(j) + seq![x] + s.skip(j));
    }
}

/// The listing of saved recordings: keeps the entries whose file name has the
/// extension `wav` and sorts them by file name, greatest first (the names
/// hold the time of recording, so the newest come first).
pub fn list_recordings(entries: Vec<RecordingInfo>) -> (r: Vec<RecordingInfo>)
    ensures
        r@ == recording_listing(entries@),
{
    let ghost all = entries@;
    let mut rest = entries;
    let mut r: Vec<RecordingInfo> = Vec::new();
    let mut keys: Vec<Vec<char>> = Vec::new();
    let ghost mut done: int = 0;
    while rest.len() > 0
        invariant
            0 <= done <= all.len(),
            rest@ == all.skip(done),
            r@ == sort_desc(wav_only(all.take(done))),
            keys@.len() == r@.len(),
            forall|k: int| 0 <= k < keys@.len() ==> (#[trigger] keys@[k])@ == r@[k].filename@,
        decreases rest@.len(),
    {
        let x = rest.remove(0);
        proof {
            assert(x == all[done]);
            assert(all.take(done + 1).drop_last() =~= all.take(done));
            assert(all.take(done + 1).last() == x);
        }
        let ghost prev = r@;
        if has_wav_extension(x.filename.as_str()) {
            let xk = chars_of(x.filename.as_str());
            let mut j: usize = 0;
            while j < r.len() && !crate::tencent::key_lt_exec(keys[j].as_slice(), xk.as_slice())
                invariant
                    j <= r@.len(),
                    r@ == prev,
                    keys@.len() == r@.len(),
                    forall|k: int| 0 <= k < keys@.len() ==> (#[trigger] keys@[k])@ == r@[k].filename@,
                    xk@ == x.filename@,
                    forall|k: int| 0 <= k < j ==> !key_lt(#[trigger] r@[k].filename@, x.filename@),
                decreases r@.len() - j,
            {
                j = j + 1;
            }
            proof {
                lemma_insert_desc_at(r@, x, j as int);
                assert(wav_only(all.take(done + 1)) == wav_only(all.take(done)).push(x));
                assert(wav_only(all.take(done)).push(x).drop_last() =~= wav_only(all.take(done)));
            }
            let ghost k0 = keys@;
            r.insert(j, x);
            keys.insert(j, xk);
            proof {
                assert(r@ =~= prev.take(j as int) + seq![x] + prev.skip(j as int));
                assert forall|k: int| 0 <= k < keys@.len() implies (#[trigger] keys@[k])@ == r@[k].filename@ by {
                    if k < j {
                        assert(keys@[k] == k0[k]);
                    } else if k > j {
                        assert(keys@[k] == k0[k - 1]);
                    }
                }
            }
        } else {
            proof {
                assert(wav_only(all.take(done + 1)) == wav_only(all.take(done)));
            }
        }
        proof {
            done = done + 1;
            assert(all.skip(done - 1).drop_first() =~= all.skip(done));
        }
    }
    proof {
        assert(all.take(all.len() as int) =~= all);
    }
    r
}

/// The file name of a test recording made at `timestamp` (seconds since the epoch).
pub open spec fn recording_file_name(timestamp: u64) -> Seq<char> {
    "recording_"@ + decimal(timestamp as nat) + ".wav"@
}

/// The file name of a test recording: `recording_<timestamp>.wav`.
pub fn recording_filename(timestamp: u64) -> (r: String)
    ensures
        r@ == recording_file_name(timestamp),
{
    let mut v = chars_of("recording_");
    let d = u64_to_decimal(timestamp);
    append_str(&mut v, d.as_str());
    append_str(&mut v, ".wav");
    string_from_chars(v.as_slice())
}

/// The WAV file of a test recording: 16 kHz, 16-bit mono PCM after its header.
pub open spec fn recording_wav(pcm: Seq<u8>) -> Seq<u8> {
    wav_header(pcm.len() as u32, 16000, 16, 1) + pcm
}

/// The bytes of the WAV file saved for a test recording.
pub fn recording_wav_bytes(pcm: &[u8]) -> (r: Vec<u8>)
    requires
        pcm@.len() <= u32::MAX - 36,
    ensures
        r@ == recording_wav(pcm@),
{
    let mut out = create_wav_header(pcm.len() as u32, 16000, 16, 1);
    let ghost h = out@;
    let mut k: usize = 0;
    while k < pcm.len()
        invariant
            k <= pcm@.len(),
            out@ == h + pcm@.take(k as int),
        decreases pcm@.len() - k,
    {
        out.push(pcm[k]);
        proof {
            assert(pcm@.take(k + 1) =~= pcm@.take(k as int).push(pcm@[k as int]));
        }
        k = k + 1;
    }
    proof {
        assert(pcm@.take(pcm@.len() as int) =~= pcm@);
    }
    out
}

} // verus!

verus! {

/// The file saved for the audio a test recording chose: nothing when no audio
/// was captured (`No audio data captured`), otherwise the WAV bytes.
pub fn saved_recording_bytes(pcm: &[u8]) -> (r: Result<Vec<u8>, String>)
    requires
        pcm@.len() <= u32::MAX - 36,
    ensures
        r is Err <==> pcm@.len() == 0,
        r matches Err(m) ==> m@ == "No audio data captured"@,
        r matches Ok(b) ==> b@ == recording_wav(pcm@),
{
    if pcm.len() == 0 {
        Err(String::from_str("No audio data captured"))
    } else {
        Ok(recording_wav_bytes(pcm))
    }
}

} // verus!

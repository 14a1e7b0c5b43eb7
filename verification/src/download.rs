//! Model downloads of the speech server: which archives to fetch and from
//! where, which files must be present afterwards, what to do with a model
//! directory that already exists, the retry pacing and the progress phases.
//! The transfers, the archive extraction and the file checks are the caller's.
use vstd::prelude::*;
use crate::models::{AsrConfig, PunctuationConfig};
use crate::text::{append_str, chars_of, string_from_chars, u64_to_decimal};

verus! {

/// Where the model archives are published.
pub open spec fn releases_base() -> Seq<char> {
    "https://github.com/k2-fsa/sherpa-onnx/releases/download"@
}

/// The files that must be present in a downloaded speech model: the
/// configured encoder, decoder, joiner and tokens, in that order.
pub fn asr_required_from_config(asr: &AsrConfig) -> (r: Vec<String>)
    ensures
        r@.map_values(|s: String| s@) == seq![asr.encoder@, asr.decoder@, asr.joiner@, asr.tokens@],
{
    let mut r: Vec<String> = Vec::new();
    r.push(asr.encoder.clone());
    r.push(asr.decoder.clone());
    r.push(asr.joiner.clone());
    r.push(asr.tokens.clone());
    proof {
        assert(r@.map_values(|s: String| s@) =~= seq![asr.encoder@, asr.decoder@, asr.joiner@, asr.tokens@]);
    }
    r
}

/// The file that must be present in a downloaded punctuation model: the
/// configured one when punctuation is enabled and a file is named, otherwise
/// `model.int8.onnx`.
pub fn punct_required_from_config(p: &PunctuationConfig) -> (r: Vec<String>)
    ensures
        r@.map_values(|s: String| s@) == if p.enabled && p.model_file@.len() > 0 {
            seq![p.model_file@]
        } else {
            seq!["model.int8.onnx"@]
        },
{
    let mut r: Vec<String> = Vec::new();
    if p.enabled && !p.model_file.as_str().is_empty() {
        r.push(p.model_file.clone());
    } else {
        r.push(String::from_str("model.int8.onnx"));
    }
    proof {
        assert(r@.map_values(|s: String| s@) =~= if p.enabled && p.model_file@.len() > 0 {
            seq![p.model_file@]
        } else {
            seq!["model.int8.onnx"@]
        });
    }
    r
}

/// The URL of a model archive: `<releases>/<category>/<name>.tar.bz2`.
pub open spec fn archive_url(category: Seq<char>, name: Seq<char>) -> Seq<char> {
    releases_base() + seq!['/'] + category + seq!['/'] + name + ".tar.bz2"@
}

/// The URL of the archive of the speech model `name`.
pub fn asr_archive_url(name: &str) -> (r: String)
    ensures
        r@ == archive_url("asr-models"@, name@),
{
    let mut v = chars_of("https://github.com/k2-fsa/sherpa-onnx/releases/download");
    v.push('/');
    append_str(&mut v, "asr-models");
    v.push('/');
    append_str(&mut v, name);
    append_str(&mut v, ".tar.bz2");
    string_from_chars(v.as_slice())
}

/// The URL of the archive of the punctuation model `name`.
pub fn punct_archive_url(name: &str) -> (r: String)
    ensures
        r@ == archive_url("punctuation-models"@, name@),
{
    let mut v = chars_of("https://github.com/k2-fsa/sherpa-onnx/releases/download");
    v.push('/');
    append_str(&mut v, "punctuation-models");
    v.push('/');
    append_str(&mut v, name);
    append_str(&mut v, ".tar.bz2");
    string_from_chars(v.as_slice())
}

/// The names of the required files that are missing (`present[i]` tells
/// whether `required[i]` exists), in order.
pub open spec fn missing_names(required: Seq<Seq<char>>, present: Seq<bool>) -> Seq<Seq<char>>
    decreases required.len(),
{
    if required.len() == 0 {
        Seq::empty()
    } else {
        let rest = missing_names(required.drop_last(), present.drop_last());
        if present.last() {
            rest
        } else {
            rest.push(required.last())
        }
    }
}

/// The required files that the check of the model directory found missing.
pub fn verify_model_files(required: &[&str], present: &[bool]) -> (r: Vec<String>)
    requires
        present@.len() == required@.len(),
    ensures
        r@.map_values(|s: String| s@) == missing_names(required@.map_values(|s: &str| s@), present@),
{
    let ghost req = required@.map_values(|s: &str| s@);
    let mut r: Vec<String> = Vec::new();
    let mut i: usize = 0;
    while i < required.len()
        invariant
            i <= required@.len(),
            present@.len() == required@.len(),
            req == required@.map_values(|s: &str| s@),
            r@.map_values(|s: String| s@) == missing_names(req.take(i as int), present@.take(i as int)),
        decreases required@.len() - i,
    {
        proof {
            assert(req.take(i + 1).drop_last() =~= req.take(i as int));
            assert(present@.take(i + 1).drop_last() =~= present@.take(i as int));
            assert(present@.take(i + 1).last() == present@[i as int]);
            assert(req.take(i + 1).last() == required@[i as int]@);
        }
        if !present[i] {
            let ghost r0 = r@;
            r.push(required[i].to_owned());
            proof {
                assert(r@.map_values(|s: String| s@) =~= r0.map_values(|s: String| s@).push(required@[i as int]@));
            }
        }
        i = i + 1;
    }
    proof {
        assert(req.take(i as int) =~= req);
        assert(present@.take(i as int) =~= present@);
    }
    r
}

/// What to do for one model before fetching it.
#[derive(Debug, PartialEq, Eq, Structural)]
pub enum ModelStep {
    /// The model is there with all its files: nothing to do.
    Skip,
    /// Fetch it; first remove the existing directory when `remove_existing`.
    Download { remove_existing: bool },
}

/// The step for a model directory: one that exists with no file missing is
/// kept unless a fresh download is forced; a forced download removes an
/// existing directory first.
pub fn model_step(force: bool, dir_exists: bool, nothing_missing: bool) -> (r: ModelStep)
    ensures
        r == if !force && dir_exists && nothing_missing {
            ModelStep::Skip
        } else {
            ModelStep::Download { remove_existing: force && dir_exists }
        },
{
    if !force && dir_exists && nothing_missing {
        ModelStep::Skip
    } else {
        ModelStep::Download { remove_existing: force && dir_exists }
    }
}

/// Whether the punctuation model is fetched: not skipped on request, enabled,
/// and named.
pub fn punctuation_wanted(no_punct: bool, p: &PunctuationConfig) -> (b: bool)
    ensures
        b == (!no_punct && p.enabled && p.model_name@.len() > 0),
{
    !no_punct && p.enabled && !p.model_name.as_str().is_empty()
}

/// Seconds to wait after the failed attempt `attempt` (counted from 1) of
/// `max_retries`: `2^attempt`, or `None` after the last attempt.
pub fn retry_wait_secs(attempt: u32, max_retries: u32) -> (r: Option<u64>)
    requires
        attempt < 64,
    ensures
        attempt < max_retries ==> r == Some(vstd::arithmetic::power2::pow2(attempt as nat) as u64),
        attempt >= max_retries ==> r is None,
{
    if attempt >= max_retries {
        return None;
    }
    let mut w: u64 = 1;
    let mut k: u32 = 0;
    proof {
        vstd::arithmetic::power2::lemma2_to64();
    }
    while k < attempt
        invariant
            k <= attempt,
            attempt < 64,
            w == vstd::arithmetic::power2::pow2(k as nat),
        decreases attempt - k,
    {
        proof {
            vstd::arithmetic::power2::lemma_pow2_unfold((k + 1) as nat);
            vstd::arithmetic::power2::lemma_pow2_strictly_increases(k as nat, 63);
            vstd::arithmetic::power2::lemma2_to64_rest();
            assert(w < 0x8000_0000_0000_0000);
        }
        w = w * 2;
        k = k + 1;
    }
    Some(w)
}

/// The name of a progress phase: `<step>_<label>`, such as `download_asr`.
pub open spec fn phase_name(step: Seq<char>, label: Seq<char>) -> Seq<char> {
    step + seq!['_'] + label
}

/// The progress phase for a step of the model labelled `label`.
pub fn progress_phase(step: &str, label: &str) -> (r: String)
    ensures
        r@ == phase_name(step@, label@),
{
    let mut v = chars_of(step);
    v.push('_');
    append_str(&mut v, label);
    string_from_chars(v.as_slice())
}

/// An extracted archive holding a single top-level directory is that model
/// directory (it is renamed); otherwise its entries are moved into a new one.
pub fn single_top_directory(entries: usize, first_is_dir: bool) -> (b: bool)
    ensures
        b == (entries == 1 && first_is_dir),
{
    entries == 1 && first_is_dir
}

/// The name of the temporary extraction directory of a model: `.tmp_<name>`.
pub fn temp_extract_dir(model_name: &str) -> (r: String)
    ensures
        r@ == ".tmp_"@ + model_name@,
{
    let mut v = chars_of(".tmp_");
    append_str(&mut v, model_name);
    string_from_chars(v.as_slice())
}

/// The size in whole mebibytes of a downloaded archive, as the log reports it.
pub fn size_in_mib(bytes: u64) -> (r: String)
    ensures
        r@ == crate::text::decimal((bytes / 1048576u64) as nat),
{
    u64_to_decimal(bytes / (1024 * 1024))
}

} // verus!

//! The recognition history's entries and the setting kept with it: the saved
//! audio device index.
use vstd::prelude::*;
use crate::text::{decimal, parse_usize, parse_usize_str, u64_to_decimal};

verus! {

/// One recognized text kept in the history, with its row id, local time
/// (`YYYY-MM-DD HH:MM:SS`) and source (such as `asr`).
pub struct HistoryEntry {
    pub id: i64,
    pub timestamp: String,
    pub text: String,
    pub source: String,
}

/// The settings key of the audio device index.
pub open spec fn device_index_key() -> Seq<char> {
    "audio_device_index"@
}

/// The saved audio device index: the stored setting parsed as a `usize`, 0
/// when it is missing or is not a number.
pub fn get_audio_device_index(stored: Option<&str>) -> (r: usize)
    ensures
        r == match stored {
            Some(s) => match parse_usize(s@) {
                Some(n) => n,
                None => 0,
            },
            None => 0,
        },
{
    match stored {
        Some(s) => match parse_usize_str(s) {
            Some(n) => n,
            None => 0,
        },
        None => 0,
    }
}

/// The setting that saves an audio device index: its key and the index in decimal.
pub fn set_audio_device_index(index: usize) -> (r: (String, String))
    ensures
        r.0@ == device_index_key(),
        r.1@ == decimal(index as nat),
{
    (String::from_str("audio_device_index"), u64_to_decimal(index as u64))
}

} // verus!

//! Display names of recognizer providers and of recognition states.
use vstd::prelude::*;
use crate::text::str_eq;

verus! {

/// The short display name of a provider in a language (`zh` or other).
pub open spec fn provider_name(provider: Seq<char>, lang: Seq<char>) -> Seq<char> {
    if provider == "tencent"@ {
        if lang == "zh"@ { "\u{817e}\u{8baf}\u{4e91}"@ } else { "Tencent Cloud"@ }
    } else if provider == "local"@ {
        if lang == "zh"@ { "\u{8fdc}\u{7a0b} STT"@ } else { "Remote STT"@ }
    } else if provider == "local_embedded"@ {
        if lang == "zh"@ { "\u{672c}\u{5730}\u{5d4c}\u{5165}\u{5f0f}"@ } else { "Local Embedded"@ }
    } else {
        provider
    }
}

/// Short display name of a recognizer provider; unknown providers show their key.
pub fn provider_short(provider: &str, lang: &str) -> (r: String)
    ensures
        r@ == provider_name(provider@, lang@),
{
    let zh = str_eq(lang, "zh");
    if str_eq(provider, "tencent") {
        if zh { String::from_str("\u{817e}\u{8baf}\u{4e91}") } else { String::from_str("Tencent Cloud") }
    } else if str_eq(provider, "local") {
        if zh { String::from_str("\u{8fdc}\u{7a0b} STT") } else { String::from_str("Remote STT") }
    } else if str_eq(provider, "local_embedded") {
        if zh { String::from_str("\u{672c}\u{5730}\u{5d4c}\u{5165}\u{5f0f}") } else { String::from_str("Local Embedded") }
    } else {
        provider.to_owned()
    }
}

/// The label of a HUD status: recording, recognizing, error; anything else is "ready".
pub open spec fn status_text(status: Seq<char>) -> Seq<char> {
    if status == "recording"@ {
        "\u{5f55}\u{97f3}\u{4e2d}"@
    } else if status == "recognizing"@ {
        "\u{8bc6}\u{522b}\u{4e2d}"@
    } else if status == "error"@ {
        "\u{9519}\u{8bef}"@
    } else {
        "\u{5c31}\u{7eea}"@
    }
}

/// The label shown for a HUD status.
pub fn status_label(status: &str) -> (r: &'static str)
    ensures
        r@ == status_text(status@),
{
    if str_eq(status, "recording") {
        "\u{5f55}\u{97f3}\u{4e2d}"
    } else if str_eq(status, "recognizing") {
        "\u{8bc6}\u{522b}\u{4e2d}"
    } else if str_eq(status, "error") {
        "\u{9519}\u{8bef}"
    } else {
        "\u{5c31}\u{7eea}"
    }
}

} // verus!

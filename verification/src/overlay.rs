//! What the VR overlay shows as text: its status, the partial result, the
//! last sentence, the model name and whether it is visible, updated field by
//! field from the messages of the main process; and the status the recording
//! pipeline reports while audio comes in. (The volume and the display
//! settings are numbers of the renderer and are kept by it.)
use vstd::prelude::*;
use crate::text::str_eq;

verus! {

/// The text part of the overlay's state.
pub struct OverlayText {
    pub status: String,
    pub current_text: String,
    pub last_sentence: String,
    pub model: String,
    pub visible: bool,
}

/// A field replaced by the update when the update carries one.
pub open spec fn updated(current: Seq<char>, new: Option<String>) -> Seq<char> {
    match new {
        Some(s) => s@,
        None => current,
    }
}

impl OverlayText {
    /// The state before any message: idle, nothing shown, model `sherpa-onnx`, visible.
    pub fn new() -> (s: Self)
        ensures
            s.status@ == "idle"@,
            s.current_text@ == Seq::<char>::empty(),
            s.last_sentence@ == Seq::<char>::empty(),
            s.model@ == "sherpa-onnx"@,
            s.visible,
    {
        OverlayText {
            status: String::from_str("idle"),
            current_text: String::new(),
            last_sentence: String::new(),
            model: String::from_str("sherpa-onnx"),
            visible: true,
        }
    }

    /// Apply a data message: only the fields it carries are overwritten.
    pub fn update(
        &mut self,
        status: Option<String>,
        text: Option<String>,
        sentence: Option<String>,
        model: Option<String>,
        visible: Option<bool>,
    )
        ensures
            final(self).status@ == updated(old(self).status@, status),
            final(self).current_text@ == updated(old(self).current_text@, text),
            final(self).last_sentence@ == updated(old(self).last_sentence@, sentence),
            final(self).model@ == updated(old(self).model@, model),
            final(self).visible == match visible {
                Some(v) => v,
                None => old(self).visible,
            },
    {
        if let Some(s) = status {
            self.status = s;
        }
        if let Some(t) = text {
            self.current_text = t;
        }
        if let Some(s) = sentence {
            self.last_sentence = s;
        }
        if let Some(m) = model {
            self.model = m;
        }
        if let Some(v) = visible {
            self.visible = v;
        }
    }
}

/// The overlay status while recording, after a chunk: `recognizing` when the
/// chunk is loud enough to be speech; otherwise `idle` in place of
/// `recognizing`, and any other status is left as it is.
pub open spec fn status_after_chunk(has_speech: bool, status: Option<Seq<char>>) -> Option<Seq<char>> {
    if has_speech {
        Some("recognizing"@)
    } else if status == Some("recognizing"@) {
        Some("idle"@)
    } else {
        status
    }
}

/// The overlay status after a captured chunk (see [`status_after_chunk`]).
pub fn overlay_status_after(has_speech: bool, status: Option<String>) -> (r: Option<String>)
    ensures
        r matches Some(s) ==> status_after_chunk(has_speech, match status {
            Some(t) => Some(t@),
            None => None,
        }) == Some(s@),
        r is None ==> status_after_chunk(has_speech, match status {
            Some(t) => Some(t@),
            None => None,
        }) is None,
{
    if has_speech {
        return Some(String::from_str("recognizing"));
    }
    match status {
        Some(s) => {
            if str_eq(s.as_str(), "recognizing") {
                Some(String::from_str("idle"))
            } else {
                Some(s)
            }
        },
        None => None,
    }
}

} // verus!

//! The recording pipeline's decisions: when a recording may start and with
//! which recognizer, and what happens to each partial result and sentence
//! (chatbox, keyboard input, stop phrase).
use vstd::prelude::*;
use crate::config::AppConfig;
use crate::osc::strip_trailing;
use crate::sessions::LocalRecognizer;
use crate::streaming::StreamingRecognizer;
use crate::text::{str_eq, str_is_empty, trim};
use crate::trigger::{matches_trigger, trigger_matches};

verus! {

/// The recognizer a recording uses.
pub enum Recognizer {
    /// The cloud streaming recognizer.
    Tencent(StreamingRecognizer),
    /// A speech server reached over a WebSocket.
    Local(LocalRecognizer),
    /// The in-process transducer engine, set up from this configuration file.
    LocalEmbedded(String),
    /// The in-process hybrid engine, set up from this configuration file.
    LocalEmbeddedHybrid(String),
}

/// Whether a recording runs and whether it was asked to stop.
pub struct RecordingState {
    recording: bool,
    should_stop: bool,
}

/// What a [`RecordingState`] holds, as plain values.
pub struct RecordingStateView {
    pub recording: bool,
    pub should_stop: bool,
}

impl View for RecordingState {
    type V = RecordingStateView;

    closed spec fn view(&self) -> RecordingStateView {
        RecordingStateView { recording: self.recording, should_stop: self.should_stop }
    }
}

/// A provider the recording pipeline knows.
pub open spec fn known_provider(p: Seq<char>) -> bool {
    p == "tencent"@ || p == "local"@ || p == "local_embedded"@
}

/// The cloud credentials are all set.
pub open spec fn has_credentials(cfg: AppConfig) -> bool {
    cfg.tencent_app_id@.len() > 0 && cfg.tencent_secret_id@.len() > 0 && cfg.tencent_secret_key@.len() > 0
}

impl RecordingState {
    /// Not recording.
    pub fn new() -> (s: Self)
        ensures
            s@ == (RecordingStateView { recording: false, should_stop: false }),
    {
        RecordingState { recording: false, should_stop: false }
    }

    /// Begin a recording with `cfg`. It fails when one is already in progress,
    /// or when the cloud provider is chosen without all credentials; otherwise
    /// it is marked as running, its stop request is cleared, and the recognizer
    /// is chosen: the WebSocket server for `local`, the hybrid engine for
    /// `local_embedded`, the cloud recognizer with the credentials for `tencent`.
    pub fn start_recording(&mut self, cfg: &AppConfig) -> (r: Result<Recognizer, String>)
        requires
            !old(self)@.recording ==> known_provider(cfg.asr_provider@),
        ensures
            old(self)@.recording ==> (r matches Err(m) && m@ == "Recording already in progress"@)
                && final(self)@ == old(self)@,
            !old(self)@.recording && cfg.asr_provider@ == "tencent"@ && !has_credentials(*cfg) ==> (r matches Err(
                m,
            ) && m@ == "Please configure Tencent Cloud credentials first"@) && final(self)@ == old(self)@,
            !old(self)@.recording && !(cfg.asr_provider@ == "tencent"@ && !has_credentials(*cfg)) ==> r is Ok
                && final(self)@ == (RecordingStateView { recording: true, should_stop: false }) && match r->Ok_0 {
                Recognizer::Local(l) => cfg.asr_provider@ == "local"@ && l.server_url()@ == cfg.local_stt_url@,
                Recognizer::LocalEmbeddedHybrid(p) => cfg.asr_provider@ == "local_embedded"@ && p@
                    == cfg.stt_config_path@,
                Recognizer::Tencent(t) => cfg.asr_provider@ == "tencent"@ && t@.app_id == cfg.tencent_app_id@
                    && t@.secret_id == cfg.tencent_secret_id@ && t@.secret_key == cfg.tencent_secret_key@
                    && t@.engine_model == "16k_zh"@,
                Recognizer::LocalEmbedded(_) => false,
            },
    {
        if self.recording {
            return Err(String::from_str("Recording already in progress"));
        }
        let is_tencent = str_eq(cfg.asr_provider.as_str(), "tencent");
        if is_tencent && !cfg.has_tencent_credentials() {
            return Err(String::from_str("Please configure Tencent Cloud credentials first"));
        }
        self.recording = true;
        self.should_stop = false;
        if str_eq(cfg.asr_provider.as_str(), "local") {
            Ok(Recognizer::Local(LocalRecognizer::new(cfg.local_stt_url.clone())))
        } else if str_eq(cfg.asr_provider.as_str(), "local_embedded") {
            Ok(Recognizer::LocalEmbeddedHybrid(cfg.stt_config_path.clone()))
        } else {
            Ok(Recognizer::Tencent(StreamingRecognizer::new(
                cfg.tencent_app_id.clone(),
                cfg.tencent_secret_id.clone(),
                cfg.tencent_secret_key.clone(),
            )))
        }
    }

    /// Ask the running recording to stop.
    pub fn stop_recording(&mut self)
        ensures
            final(self)@ == (RecordingStateView { should_stop: true, ..old(self)@ }),
    {
        self.should_stop = true;
    }

    /// Whether a stop was requested.
    pub fn should_stop(&self) -> (b: bool)
        ensures
            b == self@.should_stop,
    {
        self.should_stop
    }

    /// The capture noticed the stop request: it is consumed.
    pub fn take_stop_request(&mut self) -> (b: bool)
        ensures
            b == old(self)@.should_stop,
            final(self)@ == (RecordingStateView { should_stop: false, ..old(self)@ }),
    {
        let b = self.should_stop;
        self.should_stop = false;
        b
    }

    /// The recording ended.
    pub fn finish_recording(&mut self)
        ensures
            final(self)@ == (RecordingStateView { recording: false, ..old(self)@ }),
    {
        self.recording = false;
    }

    /// Whether a recording runs.
    pub fn is_recording(&self) -> (b: bool)
        ensures
            b == self@.recording,
    {
        self.recording
    }
}

/// What to do with a sentence the recognizer completed.
pub enum SentenceAction {
    /// Keyboard-only mode: type the raw text into the focused window, nothing else.
    Inject(String),
    /// Nothing is left once the trailing punctuation is removed.
    Skip,
    /// Show the cleaned sentence (chatbox, overlay, history); `stop` tells
    /// whether it holds the stop phrase.
    Show { text: String, stop: bool },
}

/// Handle a completed sentence.
pub fn on_sentence(sentence: &str, keyboard_only: bool, stop_phrase: &str) -> (a: SentenceAction)
    ensures
        keyboard_only ==> (a matches SentenceAction::Inject(t) && t@ == sentence@),
        !keyboard_only && strip_trailing(sentence@).len() == 0 ==> a is Skip,
        !keyboard_only && strip_trailing(sentence@).len() > 0 ==> (a matches SentenceAction::Show { text, stop }
            && text@ == strip_trailing(sentence@) && stop == trigger_matches(strip_trailing(sentence@), stop_phrase@)),
{
    if keyboard_only {
        return SentenceAction::Inject(sentence.to_owned());
    }
    let clean = crate::osc::OscSender::strip_trailing_punctuation(sentence);
    if str_is_empty(clean.as_str()) {
        return SentenceAction::Skip;
    }
    let stop = matches_trigger(clean.as_str(), stop_phrase);
    SentenceAction::Show { text: clean, stop }
}

/// What to do with a partial result: whether to show it (not in keyboard-only
/// mode) and whether it holds the stop phrase.
pub fn on_partial(partial: &str, keyboard_only: bool, stop_phrase: &str) -> (r: (bool, bool))
    ensures
        r.0 == !keyboard_only,
        r.1 == trigger_matches(partial@, stop_phrase@),
{
    (!keyboard_only, matches_trigger(partial, stop_phrase))
}

} // verus!

//! Trigger phrases: punctuation-tolerant matching of recognized speech
//! against the start and stop phrases, and the listener's shared state
//! (detection flag, recently heard texts, connection status, restart pacing).
use vstd::prelude::*;
use crate::config::{listener_has_recognizer, AppConfig};
use crate::text::{chars_of, contains_chars, contains_seq, str_eq, str_is_empty, string_from_chars, trim, trim_str};

verus! {

/// Most recently heard texts kept for the UI echo.
pub const MAX_HEARD_TEXTS: usize = 20;

/// Minimum pause between two listener restart attempts, in milliseconds.
pub const RESTART_INTERVAL_MS: u64 = 5000;

/// `char::is_ascii_punctuation`.
pub open spec fn is_ascii_punctuation(c: char) -> bool {
    let u = c as u32;
    ||| 0x21 <= u <= 0x2f
    ||| 0x3a <= u <= 0x40
    ||| 0x5b <= u <= 0x60
    ||| 0x7b <= u <= 0x7e
}

/// Full-width and CJK punctuation that trigger matching ignores:
/// ，。、；：？！ the curly quotes, 「」【】（）《》… · ～ 〈〉｛｝.
pub open spec fn is_cjk_punctuation(c: char) -> bool {
    let u = c as u32;
    ||| u == 0xff0c || u == 0x3002 || u == 0x3001 || u == 0xff1b || u == 0xff1a
    ||| u == 0xff1f || u == 0xff01
    ||| u == 0x201c || u == 0x201d || u == 0x2018 || u == 0x2019
    ||| u == 0x300c || u == 0x300d || u == 0x3010 || u == 0x3011
    ||| u == 0xff08 || u == 0xff09 || u == 0x300a || u == 0x300b || u == 0x2026
    ||| u == 0xb7 || u == 0xff5e || u == 0x3008 || u == 0x3009 || u == 0xff5b || u == 0xff5d
}

/// A character that trigger matching drops.
pub open spec fn is_trigger_punctuation(c: char) -> bool {
    is_ascii_punctuation(c) || is_cjk_punctuation(c)
}

/// `s` with every trigger punctuation character removed, order kept.
pub open spec fn stripped(s: Seq<char>) -> Seq<char> {
    s.filter(|c: char| !is_trigger_punctuation(c))
}

fn is_trigger_punctuation_exec(c: char) -> (b: bool)
    ensures
        b == is_trigger_punctuation(c),
{
    let u = c as u32;
    (0x21 <= u && u <= 0x2f) || (0x3a <= u && u <= 0x40) || (0x5b <= u && u <= 0x60) || (0x7b
        <= u && u <= 0x7e) || u == 0xff0c || u == 0x3002 || u == 0x3001 || u == 0xff1b || u
        == 0xff1a || u == 0xff1f || u == 0xff01 || u == 0x201c || u == 0x201d || u == 0x2018
        || u == 0x2019 || u == 0x300c || u == 0x300d || u == 0x3010 || u == 0x3011 || u
        == 0xff08 || u == 0xff09 || u == 0x300a || u == 0x300b || u == 0x2026 || u == 0xb7
        || u == 0xff5e || u == 0x3008 || u == 0x3009 || u == 0xff5b || u == 0xff5d
}

fn strip_punctuation_chars(v: &[char]) -> (r: Vec<char>)
    ensures
        r@ == stripped(v@),
{
    let mut r: Vec<char> = Vec::new();
    let mut i: usize = 0;
    while i < v.len()
        invariant
            i <= v@.len(),
            r@ == stripped(v@.take(i as int)),
        decreases v@.len() - i,
    {
        proof {
            reveal_with_fuel(Seq::<_>::filter, 1);
            assert(v@.take(i + 1).drop_last() =~= v@.take(i as int));
        }
        if !is_trigger_punctuation_exec(v[i]) {
            r.push(v[i]);
        }
        i = i + 1;
    }
    proof {
        assert(v@.take(v@.len() as int) =~= v@);
    }
    r
}

/// Strip common Chinese and ASCII punctuation from text for matching.
/// Letters, digits and white space are kept.
pub fn strip_punctuation(s: &str) -> (r: String)
    ensures
        r@ == stripped(s@),
{
    let v = chars_of(s);
    let r = strip_punctuation_chars(v.as_slice());
    string_from_chars(r.as_slice())
}

/// Whether `text` contains `phrase`, both taken without punctuation.
pub open spec fn trigger_matches(text: Seq<char>, phrase: Seq<char>) -> bool {
    contains_seq(stripped(text), stripped(phrase))
}

/// Check if text contains a trigger phrase, ignoring punctuation.
pub fn matches_trigger(text: &str, phrase: &str) -> (b: bool)
    ensures
        b == trigger_matches(text@, phrase@),
{
    let t = strip_punctuation_chars(chars_of(text).as_slice());
    let p = strip_punctuation_chars(chars_of(phrase).as_slice());
    contains_chars(t.as_slice(), p.as_slice())
}

} // verus!

verus! {

/// Shared state of the always-on trigger listener.
pub struct TriggerState {
    detected: bool,
    last_trigger_text: String,
    active: bool,
    stt_status: String,
    last_restart_attempt_ms: Option<u64>,
    capture_stop: Option<bool>,
    heard_texts: Vec<String>,
    paused: bool,
}

/// What a [`TriggerState`] holds, as plain values.
pub struct TriggerView {
    /// A trigger phrase was detected and not yet consumed.
    pub detected: bool,
    /// `"start"` or `"stop"`: the phrase last detected.
    pub last_trigger_text: Seq<char>,
    /// The listener is running.
    pub active: bool,
    /// Connection status shown in the UI.
    pub stt_status: Seq<char>,
    /// Clock reading (ms) of the last restart that was allowed.
    pub last_restart_attempt_ms: Option<u64>,
    /// `Some(signalled)` while a capture runs; `signalled` is its stop request.
    pub capture_stop: Option<bool>,
    /// Recently heard texts, oldest first.
    pub heard: Seq<Seq<char>>,
    /// Audio sending is paused because a recording is active.
    pub paused: bool,
}

impl View for TriggerState {
    type V = TriggerView;

    closed spec fn view(&self) -> TriggerView {
        TriggerView {
            detected: self.detected,
            last_trigger_text: self.last_trigger_text@,
            active: self.active,
            stt_status: self.stt_status@,
            last_restart_attempt_ms: self.last_restart_attempt_ms,
            capture_stop: self.capture_stop,
            heard: self.heard_texts@.map_values(|s: String| s@),
            paused: self.paused,
        }
    }
}

/// Which recognizer the trigger listener uses, or why it does not start.
#[derive(Debug, PartialEq, Eq, Structural)]
pub enum TriggerBackend {
    /// The listener already runs: nothing to start.
    AlreadyRunning,
    /// No embedded provider and no server URL: the listener stays off.
    Disabled,
    /// In-process transducer recognizer.
    LocalEmbedded,
    /// In-process hybrid recognizer.
    LocalEmbeddedHybrid,
    /// Remote recognizer reached over a WebSocket.
    Remote,
}

/// What the listener made of one recognized text.
#[derive(Debug, PartialEq, Eq, Structural)]
pub enum HeardOutcome {
    /// Only white space: nothing recorded.
    Ignored,
    /// Recorded for the UI; no trigger phrase in it.
    Heard,
    /// Recorded; the start phrase was detected.
    Start,
    /// Recorded; the stop phrase was detected.
    Stop,
}

/// `heard` after `t` is added: the oldest entry leaves when there are more than the maximum.
pub open spec fn heard_after_push(heard: Seq<Seq<char>>, t: Seq<char>) -> Seq<Seq<char>> {
    if heard.push(t).len() > MAX_HEARD_TEXTS {
        heard.push(t).drop_first()
    } else {
        heard.push(t)
    }
}

/// Whether a restart may happen at `now_ms` after the last allowed one.
pub open spec fn restart_allowed(last: Option<u64>, now_ms: u64) -> bool {
    match last {
        Some(prev) => {
            let elapsed_ms: int = if now_ms >= prev {
                now_ms - prev
            } else {
                0
            };
            elapsed_ms / 1000 >= 5
        },
        None => true,
    }
}

impl TriggerState {
    /// A listener that is not running and has heard nothing.
    pub fn new() -> (s: Self)
        ensures
            s@.detected == false,
            s@.last_trigger_text == Seq::<char>::empty(),
            s@.active == false,
            s@.stt_status == Seq::<char>::empty(),
            s@.last_restart_attempt_ms is None,
            s@.capture_stop is None,
            s@.heard == Seq::<Seq<char>>::empty(),
            s@.paused == false,
    {
        let s = TriggerState {
            detected: false,
            last_trigger_text: String::new(),
            active: false,
            stt_status: String::new(),
            last_restart_attempt_ms: None,
            capture_stop: None,
            heard_texts: Vec::new(),
            paused: false,
        };
        proof {
            assert(s@.heard =~= Seq::<Seq<char>>::empty());
        }
        s
    }
}

} // verus!

verus! {

/// Whether a trigger was detected since the last call; the detection is consumed.
pub fn is_trigger_detected(state: &mut TriggerState) -> (b: bool)
    ensures
        b == old(state)@.detected,
        final(state)@ == (TriggerView { detected: false, ..old(state)@ }),
{
    let detected = state.detected;
    state.detected = false;
    detected
}

/// The phrase last detected: `"start"` or `"stop"` (empty before any detection).
pub fn last_trigger_text(state: &TriggerState) -> (r: String)
    ensures
        r@ == state@.last_trigger_text,
{
    state.last_trigger_text.clone()
}

/// Drain all heard texts from the trigger listener (for UI echo), oldest first.
pub fn drain_heard_texts(state: &mut TriggerState) -> (r: Vec<String>)
    ensures
        r@.map_values(|s: String| s@) == old(state)@.heard,
        final(state)@ == (TriggerView { heard: Seq::<Seq<char>>::empty(), ..old(state)@ }),
{
    let mut r: Vec<String> = Vec::new();
    std::mem::swap(&mut r, &mut state.heard_texts);
    proof {
        assert(state@.heard =~= Seq::<Seq<char>>::empty());
    }
    r
}

/// Pause the listener's audio sending (recording is active; the main pipeline handles speech).
pub fn pause_audio(state: &mut TriggerState)
    ensures
        final(state)@ == (TriggerView { paused: true, ..old(state)@ }),
{
    state.paused = true;
}

/// Resume the listener's audio sending (recording stopped).
pub fn resume_audio(state: &mut TriggerState)
    ensures
        final(state)@ == (TriggerView { paused: false, ..old(state)@ }),
{
    state.paused = false;
}

/// Whether the listener's audio is paused.
pub fn is_paused(state: &TriggerState) -> (b: bool)
    ensures
        b == state@.paused,
{
    state.paused
}

/// Whether the trigger listener is currently running.
pub fn is_active(state: &TriggerState) -> (b: bool)
    ensures
        b == state@.active,
{
    state.active
}

/// Ask the listener's audio capture to stop (for a clean restart).
/// Returns whether a capture was running to receive the request.
pub fn stop_capture(state: &mut TriggerState) -> (b: bool)
    ensures
        b == old(state)@.capture_stop is Some,
        final(state)@ == (TriggerView {
            capture_stop: if b { Some(true) } else { None },
            ..old(state)@
        }),
{
    if state.capture_stop.is_some() {
        state.capture_stop = Some(true);
        true
    } else {
        false
    }
}

/// Current recognizer connection status (for UI display).
pub fn stt_status(state: &TriggerState) -> (r: String)
    ensures
        r@ == state@.stt_status,
{
    state.stt_status.clone()
}

/// Record a new connection status.
pub fn set_stt_status(state: &mut TriggerState, status: &str)
    ensures
        final(state)@ == (TriggerView { stt_status: status@, ..old(state)@ }),
{
    state.stt_status = status.to_owned();
}

/// Whether enough time (five whole seconds) has passed since the last allowed
/// restart; when it has, `now_ms` becomes the last restart attempt.
pub fn can_restart(state: &mut TriggerState, now_ms: u64) -> (b: bool)
    ensures
        b == restart_allowed(old(state)@.last_restart_attempt_ms, now_ms),
        final(state)@ == (TriggerView {
            last_restart_attempt_ms: if b { Some(now_ms) } else { old(state)@.last_restart_attempt_ms },
            ..old(state)@
        }),
{
    match state.last_restart_attempt_ms {
        Some(prev) => {
            let elapsed: u64 = if now_ms >= prev { now_ms - prev } else { 0 };
            if elapsed / 1000 < 5 {
                return false;
            }
        },
        None => {},
    }
    state.last_restart_attempt_ms = Some(now_ms);
    true
}

/// The stop phrase was detected by the main recording pipeline.
pub fn set_stop_detected(state: &mut TriggerState)
    ensures
        final(state)@ == (TriggerView {
            detected: true,
            last_trigger_text: "stop"@,
            ..old(state)@
        }),
{
    state.detected = true;
    state.last_trigger_text = String::from_str("stop");
}

} // verus!

verus! {

/// The backend the listener starts with, from the configured provider and server URL.
pub open spec fn chosen_backend(active: bool, provider: Seq<char>, local_url: Seq<char>) -> TriggerBackend {
    if active {
        TriggerBackend::AlreadyRunning
    } else if provider == "local_embedded"@ {
        TriggerBackend::LocalEmbedded
    } else if provider == "local_embedded_hybrid"@ {
        TriggerBackend::LocalEmbeddedHybrid
    } else if local_url.len() == 0 {
        TriggerBackend::Disabled
    } else {
        TriggerBackend::Remote
    }
}

/// Decide how the trigger listener starts. Unless it already runs or is
/// disabled, it is marked active and its status becomes `"connecting"`.
pub fn start_trigger_listener(state: &mut TriggerState, provider: &str, local_url: &str) -> (b:
    TriggerBackend)
    ensures
        b == chosen_backend(old(state)@.active, provider@, local_url@),
        b == TriggerBackend::AlreadyRunning || b == TriggerBackend::Disabled ==> final(state)@
            == old(state)@,
        b != TriggerBackend::AlreadyRunning && b != TriggerBackend::Disabled ==> final(state)@
            == (TriggerView { active: true, stt_status: "connecting"@, ..old(state)@ }),
{
    if state.active {
        return TriggerBackend::AlreadyRunning;
    }
    let b = if str_eq(provider, "local_embedded") {
        TriggerBackend::LocalEmbedded
    } else if str_eq(provider, "local_embedded_hybrid") {
        TriggerBackend::LocalEmbeddedHybrid
    } else if str_is_empty(local_url) {
        return TriggerBackend::Disabled;
    } else {
        TriggerBackend::Remote
    };
    state.active = true;
    state.stt_status = String::from_str("connecting");
    b
}

/// The listener's audio capture started: it can now be asked to stop.
pub fn register_capture(state: &mut TriggerState)
    ensures
        final(state)@ == (TriggerView { capture_stop: Some(false), ..old(state)@ }),
{
    state.capture_stop = Some(false);
}

/// The listener stopped, or failed to start its recognizer: it is no longer
/// active and has no capture to stop.
pub fn listener_stopped(state: &mut TriggerState)
    ensures
        final(state)@ == (TriggerView { capture_stop: None, active: false, ..old(state)@ }),
{
    state.capture_stop = None;
    state.active = false;
}

fn push_heard_text(state: &mut TriggerState, t: String)
    ensures
        final(state)@ == (TriggerView { heard: heard_after_push(old(state)@.heard, t@), ..old(state)@ }),
{
    let ghost h0 = state.heard_texts@;
    state.heard_texts.push(t);
    proof {
        assert(state.heard_texts@.map_values(|s: String| s@) =~= h0.map_values(|s: String| s@).push(t@));
    }
    if state.heard_texts.len() > MAX_HEARD_TEXTS {
        let ghost h1 = state.heard_texts@;
        state.heard_texts.remove(0);
        proof {
            assert(state.heard_texts@.map_values(|s: String| s@) =~= h1.map_values(|s: String| s@).drop_first());
        }
    }
}

/// Handle one text the listener's recognizer produced: white space is trimmed;
/// a non-empty text is kept for the UI, then checked for the start phrase and,
/// failing that, for the stop phrase.
pub fn on_heard_text(state: &mut TriggerState, text: &str, start_phrase: &str, stop_phrase: &str)
    -> (r: HeardOutcome)
    ensures
        ({
            let t = trim(text@);
            let o = old(state)@;
            if t.len() == 0 {
                r == HeardOutcome::Ignored && final(state)@ == o
            } else if trigger_matches(t, start_phrase@) {
                r == HeardOutcome::Start && final(state)@ == (TriggerView {
                    heard: heard_after_push(o.heard, t),
                    detected: true,
                    last_trigger_text: "start"@,
                    ..o
                })
            } else if trigger_matches(t, stop_phrase@) {
                r == HeardOutcome::Stop && final(state)@ == (TriggerView {
                    heard: heard_after_push(o.heard, t),
                    detected: true,
                    last_trigger_text: "stop"@,
                    ..o
                })
            } else {
                r == HeardOutcome::Heard && final(state)@ == (TriggerView {
                    heard: heard_after_push(o.heard, t),
                    ..o
                })
            }
        }),
{
    let t = trim_str(text);
    if str_is_empty(t.as_str()) {
        return HeardOutcome::Ignored;
    }
    let start = matches_trigger(t.as_str(), start_phrase);
    let stop = matches_trigger(t.as_str(), stop_phrase);
    push_heard_text(state, t);
    if start {
        state.detected = true;
        state.last_trigger_text = String::from_str("start");
        HeardOutcome::Start
    } else if stop {
        state.detected = true;
        state.last_trigger_text = String::from_str("stop");
        HeardOutcome::Stop
    } else {
        HeardOutcome::Heard
    }
}

} // verus!

verus! {

/// What the application does about a detected trigger phrase.
#[derive(Debug, PartialEq, Eq, Structural)]
pub enum TriggerAction {
    /// The stop phrase: ask the running recording to stop.
    StopRecording,
    /// The start phrase: start a recording.
    StartRecording,
}

/// The outcome of one poll of the trigger listener's state.
pub struct TriggerPoll {
    /// Texts heard since the last poll, oldest first, for the UI.
    pub heard: Vec<String>,
    /// The listener status to show, when it changed.
    pub status_change: Option<String>,
    /// The listener was found stopped and is started again with this backend.
    pub restart: Option<TriggerBackend>,
    /// A detected phrase to act on.
    pub action: Option<TriggerAction>,
}

/// The listener status shown: its connection status while it is enabled,
/// otherwise `disabled`.
pub open spec fn shown_status(o: TriggerView, enabled: bool) -> Seq<char> {
    if enabled { o.stt_status } else { "disabled"@ }
}

/// The trigger listener is enabled in the configuration.
pub open spec fn listener_enabled(cfg: Option<&AppConfig>) -> bool {
    cfg is Some && cfg->0.trigger_listener_enabled
}

/// A stopped listener is restarted: it may restart now and the configuration
/// wants it, with a recognizer to use.
pub open spec fn restart_wanted(o: TriggerView, cfg: Option<&AppConfig>, now_ms: u64) -> bool {
    &&& !o.active
    &&& restart_allowed(o.last_restart_attempt_ms, now_ms)
    &&& listener_enabled(cfg)
    &&& listener_has_recognizer(cfg->0.trigger_stt_provider@, cfg->0.local_stt_url@)
}

/// One step of the application's trigger poll (every 200 ms): hand over the
/// heard texts, report a change of the listener status, restart a listener
/// that stopped (at most once every 5 s), and consume a detected phrase.
pub fn poll_trigger(state: &mut TriggerState, cfg: Option<&AppConfig>, last_status: &mut String, now_ms: u64) -> (p:
    TriggerPoll)
    ensures
        ({
            let o = old(state)@;
            let enabled = listener_enabled(cfg);
            let shown = shown_status(o, enabled);
            let tries = !o.active && restart_allowed(o.last_restart_attempt_ms, now_ms);
            let wanted = restart_wanted(o, cfg, now_ms);
            &&& p.heard@.map_values(|s: String| s@) == o.heard
            &&& shown != old(last_status)@ ==> (p.status_change matches Some(c) && c@ == shown)
                && final(last_status)@ == shown
            &&& shown == old(last_status)@ ==> p.status_change is None && final(last_status)@ == old(last_status)@
            &&& p.restart == if wanted {
                Some(chosen_backend(false, cfg->0.trigger_stt_provider@, cfg->0.local_stt_url@))
            } else {
                None
            }
            &&& p.action == if o.detected {
                Some(if o.last_trigger_text == "stop"@ { TriggerAction::StopRecording } else { TriggerAction::StartRecording })
            } else {
                None
            }
            &&& final(state)@ == (TriggerView {
                heard: Seq::empty(),
                detected: false,
                last_restart_attempt_ms: if tries { Some(now_ms) } else { o.last_restart_attempt_ms },
                active: if wanted { true } else { o.active },
                stt_status: if wanted { "connecting"@ } else { o.stt_status },
                ..o
            })
        }),
{
    let heard = drain_heard_texts(state);
    let enabled = match cfg {
        Some(c) => c.trigger_listener_enabled,
        None => false,
    };
    let shown: String = if enabled { stt_status(state) } else { String::from_str("disabled") };
    let status_change = if !str_eq(shown.as_str(), last_status.as_str()) {
        *last_status = shown.clone();
        Some(shown)
    } else {
        None
    };
    let mut restart: Option<TriggerBackend> = None;
    if !is_active(state) && can_restart(state, now_ms) {
        match cfg {
            Some(c) => {
                if c.trigger_listener_wanted() {
                    restart = Some(start_trigger_listener(
                        state,
                        c.trigger_stt_provider.as_str(),
                        c.local_stt_url.as_str(),
                    ));
                }
            },
            None => {},
        }
    }
    let action = if is_trigger_detected(state) {
        let t = last_trigger_text(state);
        if str_eq(t.as_str(), "stop") {
            Some(TriggerAction::StopRecording)
        } else {
            Some(TriggerAction::StartRecording)
        }
    } else {
        None
    };
    TriggerPoll { heard, status_change, restart, action }
}

} // verus!

//! The cloud streaming recognizer: its credentials, its signed URL, the
//! responses it sends, and what the recognition loop does with each of them.
use vstd::prelude::*;
use crate::text::{append_chars, append_str, chars_of, signed_decimal, i32_to_decimal, string_from_chars, trim, trim_str};

verus! {

/// The streaming recognizer of the cloud service, with its credentials.
pub struct StreamingRecognizer {
    app_id: String,
    secret_id: String,
    secret_key: String,
    engine_model: String,
}

/// What a [`StreamingRecognizer`] holds, as plain values.
pub struct StreamingRecognizerView {
    pub app_id: Seq<char>,
    pub secret_id: Seq<char>,
    pub secret_key: Seq<char>,
    pub engine_model: Seq<char>,
}

impl View for StreamingRecognizer {
    type V = StreamingRecognizerView;

    closed spec fn view(&self) -> StreamingRecognizerView {
        StreamingRecognizerView {
            app_id: self.app_id@,
            secret_id: self.secret_id@,
            secret_key: self.secret_key@,
            engine_model: self.engine_model@,
        }
    }
}

/// The audio format code for a sample rate: 2 for 8 kHz, 1 (16 kHz PCM) otherwise.
pub open spec fn audio_format_for(sample_rate: u32) -> u8 {
    if sample_rate == 8000 {
        2
    } else {
        1
    }
}

impl StreamingRecognizer {
    /// A recognizer with the given credentials and the Mandarin 16 kHz engine.
    pub fn new(app_id: String, secret_id: String, secret_key: String) -> (r: Self)
        ensures
            r@.app_id == app_id@,
            r@.secret_id == secret_id@,
            r@.secret_key == secret_key@,
            r@.engine_model == "16k_zh"@,
    {
        StreamingRecognizer { app_id, secret_id, secret_key, engine_model: String::from_str("16k_zh") }
    }

    /// The signed URL with the stored credentials, at the given clock reading and voice id.
    pub fn build_asr_url_at(&self, sample_rate: u32, timestamp: u64, voice_id: &str) -> (r: String)
        requires
            timestamp <= u64::MAX - 86400,
        ensures
            ({
                let v = self@;
                let ps = crate::tencent::asr_params(
                    v.secret_id,
                    v.engine_model,
                    timestamp,
                    audio_format_for(sample_rate),
                    true,
                    voice_id@,
                );
                r@ == crate::tencent::asr_url(
                    v.app_id,
                    ps,
                    crate::tencent::signature_of(v.secret_key, v.app_id, ps),
                )
            }),
    {
        let audio_format: u8 = if sample_rate == 8000 { 2 } else { 1 };
        crate::tencent::build_asr_url_at(
            self.app_id.as_str(),
            self.secret_id.as_str(),
            self.secret_key.as_str(),
            self.engine_model.as_str(),
            audio_format,
            true,
            timestamp,
            voice_id,
        )
    }

    /// Build the recognizer URL using the stored credentials, the current time
    /// and a fresh voice id (see [`crate::tencent::build_asr_url`]).
    pub fn build_asr_url(&self, sample_rate: u32) -> (r: String)
        ensures
            exists|timestamp: u64, voice_id: Seq<char>|
                #![trigger crate::tencent::asr_params(self@.secret_id, self@.engine_model, timestamp, audio_format_for(sample_rate), true, voice_id)]
                voice_id.len() == 36 && r@ == crate::tencent::asr_url(
                    self@.app_id,
                    crate::tencent::asr_params(self@.secret_id, self@.engine_model, timestamp, audio_format_for(sample_rate), true, voice_id),
                    crate::tencent::signature_of(
                        self@.secret_key,
                        self@.app_id,
                        crate::tencent::asr_params(self@.secret_id, self@.engine_model, timestamp, audio_format_for(sample_rate), true, voice_id),
                    ),
                ),
    {
        let audio_format: u8 = if sample_rate == 8000 { 2 } else { 1 };
        assert(audio_format == audio_format_for(sample_rate));
        let r = crate::tencent::build_asr_url(
            self.app_id.as_str(),
            self.secret_id.as_str(),
            self.secret_key.as_str(),
            self.engine_model.as_str(),
            audio_format,
            true,
        );
        proof {
            let (t, v) = choose|timestamp: u64, voice_id: Seq<char>|
                #![trigger crate::tencent::asr_params(self@.secret_id, self@.engine_model, timestamp, audio_format, true, voice_id)]
                voice_id.len() == 36 && r@ == crate::tencent::asr_url(
                    self@.app_id,
                    crate::tencent::asr_params(self@.secret_id, self@.engine_model, timestamp, audio_format, true, voice_id),
                    crate::tencent::signature_of(
                        self@.secret_key,
                        self@.app_id,
                        crate::tencent::asr_params(self@.secret_id, self@.engine_model, timestamp, audio_format, true, voice_id),
                    ),
                );
            let _ = crate::tencent::asr_params(self@.secret_id, self@.engine_model, t, audio_format_for(sample_rate), true, v);
        }
        r
    }
}

} // verus!

verus! {

/// One recognition result inside a response.
pub struct RecogResult {
    /// 0: a sentence started; 1: a partial result; 2: the final result of a sentence.
    pub slice_type: i32,
    pub index: i32,
    pub start_time: i64,
    pub end_time: i64,
    pub voice_text_str: String,
}

/// A response of the cloud recognizer (the JSON reply, as plain values).
pub struct RecogResponse {
    /// 0 on success, an error code otherwise.
    pub code: i32,
    pub message: String,
    pub voice_id: Option<String>,
    pub result: Option<RecogResult>,
}

/// What the one-shot recognition makes of a response.
pub enum BatchStep {
    /// Keep reading responses.
    Continue,
    /// The final result: recognition is complete with this text.
    Final(String),
    /// The service reported an error: recognition fails with this message.
    Failed(String),
}

/// The one-shot recognition step: an error code fails with `ASR error: <message>`;
/// a final result (slice type 2) completes; anything else is read past.
pub fn batch_response_step(resp: &RecogResponse) -> (r: BatchStep)
    ensures
        resp.code != 0 ==> (r matches BatchStep::Failed(m) && m@ == "ASR error: "@ + resp.message@),
        resp.code == 0 && resp.result is Some && resp.result->0.slice_type == 2 ==> (r matches BatchStep::Final(t)
            && t@ == resp.result->0.voice_text_str@),
        resp.code == 0 && !(resp.result is Some && resp.result->0.slice_type == 2) ==> r is Continue,
{
    if resp.code != 0 {
        let mut m: Vec<char> = Vec::new();
        append_str(&mut m, "ASR error: ");
        append_str(&mut m, resp.message.as_str());
        return BatchStep::Failed(string_from_chars(m.as_slice()));
    }
    match &resp.result {
        Some(result) => {
            if result.slice_type == 2 {
                BatchStep::Final(result.voice_text_str.clone())
            } else {
                BatchStep::Continue
            }
        },
        None => BatchStep::Continue,
    }
}

/// The sentence a response completes: the trimmed text of a final result
/// (slice type 2), unless it is blank.
pub fn completed_sentence(resp: &RecogResponse) -> (r: Option<String>)
    ensures
        ({
            let done = resp.result is Some && resp.result->0.slice_type == 2
                && trim(resp.result->0.voice_text_str@).len() > 0;
            &&& done ==> r is Some && r->0@ == trim(resp.result->0.voice_text_str@)
            &&& !done ==> r is None
        }),
{
    match &resp.result {
        Some(result) => {
            if result.slice_type == 2 {
                let t = trim_str(result.voice_text_str.as_str());
                if t.as_str().unicode_len() > 0 {
                    Some(t)
                } else {
                    None
                }
            } else {
                None
            }
        },
        None => None,
    }
}

/// The streaming recognition's accumulated final text.
pub struct StreamSession {
    full_text: String,
}

impl View for StreamSession {
    type V = Seq<char>;

    closed spec fn view(&self) -> Seq<char> {
        self.full_text@
    }
}

impl StreamSession {
    /// A session that has recognized nothing yet.
    pub fn new() -> (s: Self)
        ensures
            s@ == Seq::<char>::empty(),
    {
        StreamSession { full_text: String::new() }
    }

    /// The text recognized so far.
    pub fn full_text(&self) -> (r: String)
        ensures
            r@ == self@,
    {
        self.full_text.clone()
    }

    /// A response while audio is still being sent: a partial result (slice type 1)
    /// is handed back for display; a final one (slice type 2) is added to the text
    /// with a space after it. An error code does not end the session here.
    pub fn on_stream_response(&mut self, resp: &RecogResponse) -> (partial: Option<String>)
        ensures
            ({
                let is_slice = |k: i32| resp.result is Some && resp.result->0.slice_type == k;
                &&& is_slice(1) ==> partial is Some && partial->0@ == resp.result->0.voice_text_str@
                    && final(self)@ == old(self)@
                &&& is_slice(2) ==> partial is None && final(self)@ == old(self)@
                    + resp.result->0.voice_text_str@ + seq![' ']
                &&& !is_slice(1) && !is_slice(2) ==> partial is None && final(self)@ == old(self)@
            }),
    {
        match &resp.result {
            Some(result) => {
                if result.slice_type == 1 {
                    Some(result.voice_text_str.clone())
                } else if result.slice_type == 2 {
                    let mut t = chars_of(self.full_text.as_str());
                    append_str(&mut t, result.voice_text_str.as_str());
                    t.push(' ');
                    self.full_text = string_from_chars(t.as_slice());
                    None
                } else {
                    None
                }
            },
            None => None,
        }
    }

    /// A response after the end of audio was signalled: an error code fails the
    /// recognition with `ASR error: <code> - <message>`; a final result is added
    /// to the text.
    pub fn on_final_response(&mut self, resp: &RecogResponse) -> (r: Result<(), String>)
        ensures
            resp.code != 0 ==> (r matches Err(m) && m@ == "ASR error: "@ + signed_decimal(
                resp.code as int,
            ) + " - "@ + resp.message@) && final(self)@ == old(self)@,
            resp.code == 0 ==> r is Ok && final(self)@ == if resp.result is Some
                && resp.result->0.slice_type == 2 {
                old(self)@ + resp.result->0.voice_text_str@
            } else {
                old(self)@
            },
    {
        if resp.code != 0 {
            let mut m: Vec<char> = Vec::new();
            append_str(&mut m, "ASR error: ");
            let c = i32_to_decimal(resp.code);
            append_chars(&mut m, c.as_slice());
            append_str(&mut m, " - ");
            append_str(&mut m, resp.message.as_str());
            return Err(string_from_chars(m.as_slice()));
        }
        match &resp.result {
            Some(result) => {
                if result.slice_type == 2 {
                    let mut t = chars_of(self.full_text.as_str());
                    append_str(&mut t, result.voice_text_str.as_str());
                    self.full_text = string_from_chars(t.as_slice());
                }
            },
            None => {},
        }
        Ok(())
    }
}

} // verus!

verus! {

/// The WebSocket form of a signed URL: every `https://` becomes `wss://`.
pub fn to_websocket_url(url: &str) -> (r: String)
    ensures
        r@ == crate::text::replace_all(url@, "https://"@, "wss://"@),
{
    proof {
        reveal_strlit("https://");
    }
    crate::text::replace_all_str(url, "https://", "wss://")
}

} // verus!

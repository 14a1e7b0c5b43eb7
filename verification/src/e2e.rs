//! The HTTP test endpoint: `/start`, `/stop`, `/result`, `/status`, with the
//! JSON replies and status codes it gives for the recording it drives.
use vstd::prelude::*;
use crate::json::{append_bool, json_bool, json_quote, json_string};
use crate::text::{append_str, str_eq, string_from_chars};

verus! {

/// The request methods the endpoint tells apart.
#[derive(Debug, PartialEq, Eq, Structural)]
pub enum HttpMethod {
    Options,
    Get,
    Post,
    Other,
}

/// What the endpoint must do besides replying.
#[derive(Debug, PartialEq, Eq, Structural)]
pub enum E2eAction {
    Nothing,
    /// Run the recording pipeline.
    StartRecording,
    /// Signal the running recording to stop.
    StopRecording,
}

/// A reply: status code and body.
pub struct E2eReply {
    pub status: u16,
    pub body: String,
}

/// The endpoint's state: whether a recording runs and the last result.
pub struct E2eServer {
    recording: bool,
    last_result: String,
}

/// What an [`E2eServer`] holds, as plain values.
pub struct E2eServerView {
    pub recording: bool,
    pub last_result: Seq<char>,
}

impl View for E2eServer {
    type V = E2eServerView;

    closed spec fn view(&self) -> E2eServerView {
        E2eServerView { recording: self.recording, last_result: self.last_result@ }
    }
}

/// `"recording"` or `"idle"`.
pub open spec fn status_word(recording: bool) -> Seq<char> {
    if recording { "recording"@ } else { "idle"@ }
}

/// The `/result` body: keys in sorted order, as `serde_json` writes a map.
pub open spec fn result_json(recording: bool, text: Seq<char>) -> Seq<char> {
    "{\"recording\":"@ + json_bool(recording) + ",\"status\":"@ + json_string(status_word(recording))
        + ",\"text\":"@ + json_string(text) + seq!['}']
}

/// The `/status` body.
pub open spec fn status_json(recording: bool) -> Seq<char> {
    "{\"status\":\""@ + status_word(recording) + "\",\"recording\":"@ + json_bool(recording) + seq!['}']
}

/// The reply and action for a request to `path` with `method`.
pub open spec fn route_spec(s: E2eServerView, method: HttpMethod, path: Seq<char>) -> (u16, Seq<char>, E2eAction) {
    if method == HttpMethod::Options {
        (200, "ok"@, E2eAction::Nothing)
    } else if method == HttpMethod::Post && path == "/start"@ {
        if s.recording {
            (409, "{\"status\":\"error\",\"message\":\"already recording\"}"@, E2eAction::Nothing)
        } else {
            (200, "{\"status\":\"ok\",\"message\":\"recording started\"}"@, E2eAction::StartRecording)
        }
    } else if method == HttpMethod::Post && path == "/stop"@ {
        (200, "{\"status\":\"ok\",\"message\":\"stop signal sent\"}"@, E2eAction::StopRecording)
    } else if method == HttpMethod::Get && path == "/result"@ {
        (200, result_json(s.recording, s.last_result), E2eAction::Nothing)
    } else if method == HttpMethod::Get && path == "/status"@ {
        (200, status_json(s.recording), E2eAction::Nothing)
    } else {
        (404, "{\"error\":\"not found\"}"@, E2eAction::Nothing)
    }
}

impl E2eServer {
    /// Idle, no result yet.
    pub fn new() -> (s: Self)
        ensures
            s@ == (E2eServerView { recording: false, last_result: Seq::<char>::empty() }),
    {
        E2eServer { recording: false, last_result: String::new() }
    }

    /// Answer a request. Starting a recording marks it as running.
    pub fn route(&mut self, method: HttpMethod, path: &str) -> (r: (E2eReply, E2eAction))
        ensures
            (r.0.status, r.0.body@, r.1) == route_spec(old(self)@, method, path@),
            final(self)@ == if r.1 == E2eAction::StartRecording {
                E2eServerView { recording: true, ..old(self)@ }
            } else {
                old(self)@
            },
    {
        if method == HttpMethod::Options {
            return (E2eReply { status: 200, body: String::from_str("ok") }, E2eAction::Nothing);
        }
        if method == HttpMethod::Post && str_eq(path, "/start") {
            if self.recording {
                return (
                    E2eReply {
                        status: 409,
                        body: String::from_str("{\"status\":\"error\",\"message\":\"already recording\"}"),
                    },
                    E2eAction::Nothing,
                );
            }
            self.recording = true;
            return (
                E2eReply {
                    status: 200,
                    body: String::from_str("{\"status\":\"ok\",\"message\":\"recording started\"}"),
                },
                E2eAction::StartRecording,
            );
        }
        if method == HttpMethod::Post && str_eq(path, "/stop") {
            return (
                E2eReply { status: 200, body: String::from_str("{\"status\":\"ok\",\"message\":\"stop signal sent\"}") },
                E2eAction::StopRecording,
            );
        }
        if method == HttpMethod::Get && str_eq(path, "/result") {
            let mut v: Vec<char> = Vec::new();
            append_str(&mut v, "{\"recording\":");
            append_bool(&mut v, self.recording);
            append_str(&mut v, ",\"status\":");
            let word: &str = if self.recording { "recording" } else { "idle" };
            append_str(&mut v, json_quote(word).as_str());
            append_str(&mut v, ",\"text\":");
            append_str(&mut v, json_quote(self.last_result.as_str()).as_str());
            v.push('}');
            let body = string_from_chars(v.as_slice());
            proof {
                assert(body@ =~= result_json(self.recording, self.last_result@));
            }
            return (E2eReply { status: 200, body }, E2eAction::Nothing);
        }
        if method == HttpMethod::Get && str_eq(path, "/status") {
            let mut v: Vec<char> = Vec::new();
            append_str(&mut v, "{\"status\":\"");
            if self.recording {
                append_str(&mut v, "recording");
            } else {
                append_str(&mut v, "idle");
            }
            append_str(&mut v, "\",\"recording\":");
            append_bool(&mut v, self.recording);
            v.push('}');
            let body = string_from_chars(v.as_slice());
            proof {
                assert(body@ =~= status_json(self.recording));
            }
            return (E2eReply { status: 200, body }, E2eAction::Nothing);
        }
        (E2eReply { status: 404, body: String::from_str("{\"error\":\"not found\"}") }, E2eAction::Nothing)
    }

    /// The recording pipeline finished: its text, or `ERROR: <message>`,
    /// becomes the result, and the endpoint is idle again.
    pub fn recording_finished(&mut self, result: Result<String, String>)
        ensures
            final(self)@.recording == false,
            final(self)@.last_result == match result {
                Ok(t) => t@,
                Err(e) => "ERROR: "@ + e@,
            },
    {
        match result {
            Ok(t) => {
                self.last_result = t;
            },
            Err(e) => {
                let mut v: Vec<char> = Vec::new();
                append_str(&mut v, "ERROR: ");
                append_str(&mut v, e.as_str());
                self.last_result = string_from_chars(v.as_slice());
            },
        }
        self.recording = false;
    }
}

} // verus!

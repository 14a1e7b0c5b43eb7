//! The desktop test client of the speech server: what its worker makes of the
//! server's replies, and the state the window shows (recording or not, the
//! partial result, the final segments and a bounded log).
use vstd::prelude::*;
use crate::text::{append_str, chars_of, decimal, str_eq, string_from_chars, u64_to_decimal};

verus! {

/// Log entries kept by the window before the oldest are dropped.
pub const GUI_LOG_LIMIT: usize = 500;

/// Log entries dropped at once when the limit is passed.
pub const GUI_LOG_DROP: usize = 200;

/// Severity of a log line in the window.
#[derive(Debug, PartialEq, Eq, Structural, Clone, Copy)]
pub enum GuiLogLevel {
    Info,
    Warn,
    Error,
}

/// The severity named by a worker log message: `warn`, `error`, anything else is info.
pub fn gui_log_level(level: &str) -> (r: GuiLogLevel)
    ensures
        r == if level@ == "warn"@ {
            GuiLogLevel::Warn
        } else if level@ == "error"@ {
            GuiLogLevel::Error
        } else {
            GuiLogLevel::Info
        },
{
    if str_eq(level, "warn") {
        GuiLogLevel::Warn
    } else if str_eq(level, "error") {
        GuiLogLevel::Error
    } else {
        GuiLogLevel::Info
    }
}

/// What the worker reports to the window (the input volume goes its own way).
pub enum GuiEvent {
    Connected,
    Disconnected,
    Error(String),
    Partial(String),
    Final { text: String, segment: u32 },
    Log { level: String, message: String },
}

/// The segment number as the worker passes it on: the low 32 bits of the JSON number.
pub open spec fn segment_u32(segment: u64) -> u32 {
    (segment % 0x1_0000_0000) as u32
}

/// The event for a server reply whose fields were read from its JSON: a
/// missing text is empty, a missing `is_final` is false, a missing segment is 0.
pub fn gui_event_from_reply(text: Option<String>, is_final: Option<bool>, segment: Option<u64>) -> (e: GuiEvent)
    ensures
        ({
            let t: Seq<char> = match text {
                Some(s) => s@,
                None => Seq::empty(),
            };
            let fin = is_final is Some && is_final->0;
            let seg: u64 = match segment {
                Some(n) => n,
                None => 0,
            };
            if fin {
                e matches GuiEvent::Final { text: x, segment: n } && x@ == t && n == segment_u32(seg)
            } else {
                e matches GuiEvent::Partial(x) && x@ == t
            }
        }),
{
    let t = match text {
        Some(s) => s,
        None => String::new(),
    };
    let fin = match is_final {
        Some(f) => f,
        None => false,
    };
    let seg: u64 = match segment {
        Some(n) => n,
        None => 0,
    };
    if fin {
        GuiEvent::Final { text: t, segment: (seg % 0x1_0000_0000) as u32 }
    } else {
        GuiEvent::Partial(t)
    }
}

/// A line of the window's log.
pub struct GuiLogEntry {
    pub timestamp: String,
    pub level: GuiLogLevel,
    pub message: String,
}

/// A log line as plain values.
pub type GuiLogView = (Seq<char>, GuiLogLevel, Seq<char>);

/// The log after `e` is added: past the limit, the oldest 200 entries go.
pub open spec fn gui_log_after_push(logs: Seq<GuiLogView>, e: GuiLogView) -> Seq<GuiLogView> {
    let l = logs.push(e);
    if l.len() > GUI_LOG_LIMIT {
        l.skip(GUI_LOG_DROP as int)
    } else {
        l
    }
}

/// The state of the test client's window.
pub struct GuiSession {
    recording: bool,
    partial_text: String,
    segments: Vec<(u32, String)>,
    logs: Vec<GuiLogEntry>,
}

/// What a [`GuiSession`] holds, as plain values.
pub struct GuiSessionView {
    pub recording: bool,
    pub partial_text: Seq<char>,
    pub segments: Seq<(u32, Seq<char>)>,
    pub logs: Seq<GuiLogView>,
}

impl View for GuiSession {
    type V = GuiSessionView;

    closed spec fn view(&self) -> GuiSessionView {
        GuiSessionView {
            recording: self.recording,
            partial_text: self.partial_text@,
            segments: self.segments@.map_values(|s: (u32, String)| (s.0, s.1@)),
            logs: self.logs@.map_values(|e: GuiLogEntry| (e.timestamp@, e.level, e.message@)),
        }
    }
}

/// The log line of a final segment: `Segment <n> (final): <text>`.
pub open spec fn segment_log(segment: u32, text: Seq<char>) -> Seq<char> {
    "Segment "@ + decimal(segment as nat) + " (final): "@ + text
}

/// The window after `e` at log time `ts`, and whether the worker must be stopped.
pub open spec fn gui_step(o: GuiSessionView, e: GuiEvent, ts: Seq<char>) -> (GuiSessionView, bool) {
    match e {
        GuiEvent::Connected => (
            GuiSessionView { logs: gui_log_after_push(o.logs, (ts, GuiLogLevel::Info, "Connected to server"@)), ..o },
            false,
        ),
        GuiEvent::Disconnected => if o.recording {
            (gui_stopped(o, ts), true)
        } else {
            (o, false)
        },
        GuiEvent::Error(m) => {
            let a = GuiSessionView { logs: gui_log_after_push(o.logs, (ts, GuiLogLevel::Error, m@)), ..o };
            if o.recording {
                (gui_stopped(a, ts), true)
            } else {
                (a, false)
            }
        },
        GuiEvent::Partial(t) => (GuiSessionView { partial_text: t@, ..o }, false),
        GuiEvent::Final { text, segment } => (
            GuiSessionView {
                segments: o.segments.push((segment, text@)),
                logs: gui_log_after_push(o.logs, (ts, GuiLogLevel::Info, segment_log(segment, text@))),
                partial_text: Seq::empty(),
                ..o
            },
            false,
        ),
        GuiEvent::Log { level, message } => {
            let lv = if level@ == "warn"@ {
                GuiLogLevel::Warn
            } else if level@ == "error"@ {
                GuiLogLevel::Error
            } else {
                GuiLogLevel::Info
            };
            (GuiSessionView { logs: gui_log_after_push(o.logs, (ts, lv, message@)), ..o }, false)
        },
    }
}

/// The window after it stopped: idle, with a `Stopped` log line.
pub open spec fn gui_stopped(o: GuiSessionView, ts: Seq<char>) -> GuiSessionView {
    GuiSessionView { recording: false, logs: gui_log_after_push(o.logs, (ts, GuiLogLevel::Info, "Stopped"@)), ..o }
}

impl GuiSession {
    /// Idle, nothing shown.
    pub fn new() -> (s: Self)
        ensures
            s@ == (GuiSessionView {
                recording: false,
                partial_text: Seq::empty(),
                segments: Seq::empty(),
                logs: Seq::empty(),
            }),
    {
        let s = GuiSession { recording: false, partial_text: String::new(), segments: Vec::new(), logs: Vec::new() };
        proof {
            assert(s@.segments =~= Seq::<(u32, Seq<char>)>::empty());
            assert(s@.logs =~= Seq::<GuiLogView>::empty());
        }
        s
    }

    /// Add a log line at time `ts`; past 500 lines the oldest 200 are dropped.
    pub fn add_log(&mut self, ts: String, level: GuiLogLevel, message: String)
        ensures
            final(self)@ == (GuiSessionView {
                logs: gui_log_after_push(old(self)@.logs, (ts@, level, message@)),
                ..old(self)@
            }),
    {
        let ghost l0 = self@.logs;
        let e = GuiLogEntry { timestamp: ts, level, message };
        let ghost ev = (e.timestamp@, e.level, e.message@);
        self.logs.push(e);
        proof {
            assert(self@.logs =~= l0.push(ev));
        }
        if self.logs.len() > GUI_LOG_LIMIT {
            let ghost l1 = self@.logs;
            let mut kept: Vec<GuiLogEntry> = Vec::new();
            let mut rest: Vec<GuiLogEntry> = Vec::new();
            std::mem::swap(&mut rest, &mut self.logs);
            let ghost all = rest@;
            assert(all.len() == rest.len());
            let mut i: usize = 0;
            while rest.len() > 0
                invariant
                    i <= all.len(),
                    rest@ == all.skip(i as int),
                    kept@.map_values(|e: GuiLogEntry| (e.timestamp@, e.level, e.message@))
                        == all.skip(GUI_LOG_DROP as int).take(if i > GUI_LOG_DROP { (i - GUI_LOG_DROP) as int } else { 0 }).map_values(
                        |e: GuiLogEntry| (e.timestamp@, e.level, e.message@),
                    ),
                    all.len() > GUI_LOG_LIMIT,
                    all.len() <= usize::MAX,
                decreases rest@.len(),
            {
                let x = rest.remove(0);
                proof {
                    assert(x == all[i as int]);
                    assert(all.skip(i as int).drop_first() =~= all.skip(i + 1));
                }
                if i >= GUI_LOG_DROP {
                    let ghost k0 = kept@;
                    kept.push(x);
                    proof {
                        let f = |e: GuiLogEntry| (e.timestamp@, e.level, e.message@);
                        assert(all.skip(GUI_LOG_DROP as int).take((i + 1 - GUI_LOG_DROP) as int)
                            =~= all.skip(GUI_LOG_DROP as int).take((i - GUI_LOG_DROP) as int).push(x));
                        assert(kept@.map_values(f) =~= k0.map_values(f).push(f(x)));
                    }
                }
                i = i + 1;
            }
            proof {
                let f = |e: GuiLogEntry| (e.timestamp@, e.level, e.message@);
                assert(all.skip(GUI_LOG_DROP as int).take((i - GUI_LOG_DROP) as int) =~= all.skip(GUI_LOG_DROP as int));
                assert(l1 == all.map_values(f));
                assert(all.skip(GUI_LOG_DROP as int).map_values(f) =~= l1.skip(GUI_LOG_DROP as int));
            }
            self.logs = kept;
        }
    }

    /// Stop: idle, with a `Stopped` log line at time `ts` (the caller stops the worker).
    pub fn stop(&mut self, ts: String)
        ensures
            final(self)@ == gui_stopped(old(self)@, ts@),
    {
        self.recording = false;
        self.add_log(ts, GuiLogLevel::Info, String::from_str("Stopped"));
    }

    /// Handle a worker event at log time `ts`. Returns whether the worker must
    /// be stopped (the connection ended or failed while recording).
    pub fn on_event(&mut self, e: GuiEvent, ts: String) -> (stop: bool)
        ensures
            (final(self)@, stop) == gui_step(old(self)@, e, ts@),
    {
        match e {
            GuiEvent::Connected => {
                self.add_log(ts, GuiLogLevel::Info, String::from_str("Connected to server"));
                false
            },
            GuiEvent::Disconnected => {
                if self.recording {
                    self.stop(ts);
                    true
                } else {
                    false
                }
            },
            GuiEvent::Error(m) => {
                let ts2 = ts.clone();
                self.add_log(ts, GuiLogLevel::Error, m);
                if self.recording {
                    self.stop(ts2);
                    true
                } else {
                    false
                }
            },
            GuiEvent::Partial(t) => {
                self.partial_text = t;
                false
            },
            GuiEvent::Final { text, segment } => {
                let ghost s0 = self@.segments;
                let mut line = chars_of("Segment ");
                append_str(&mut line, u64_to_decimal(segment as u64).as_str());
                append_str(&mut line, " (final): ");
                append_str(&mut line, text.as_str());
                let msg = string_from_chars(line.as_slice());
                let ghost tv = text@;
                self.segments.push((segment, text));
                proof {
                    assert(self@.segments =~= s0.push((segment, tv)));
                }
                self.add_log(ts, GuiLogLevel::Info, msg);
                self.partial_text = String::new();
                false
            },
            GuiEvent::Log { level, message } => {
                let lv = gui_log_level(level.as_str());
                self.add_log(ts, lv, message);
                false
            },
        }
    }

    /// Start recording: the window is cleared first (after stopping, which
    /// logs `Stopped`). From a file, nothing starts while no file is chosen
    /// (a warning is logged); otherwise the start is logged with `what`
    /// (`Started microphone recording...` or `Sending file: <name>`) and the
    /// window records. Returns whether the worker was started.
    pub fn start(&mut self, ts: String, from_file: bool, file_name: Option<String>) -> (started: bool)
        ensures
            ({
                let cleared = GuiSessionView {
                    partial_text: Seq::empty(),
                    segments: Seq::empty(),
                    logs: Seq::empty(),
                    ..gui_stopped(old(self)@, ts@)
                };
                if from_file && file_name is None {
                    !started && final(self)@ == (GuiSessionView {
                        logs: gui_log_after_push(cleared.logs, (ts@, GuiLogLevel::Warn, "Please select a WAV file first"@)),
                        ..cleared
                    })
                } else {
                    let msg = if from_file {
                        "Sending file: "@ + file_name->0@
                    } else {
                        "Started microphone recording..."@
                    };
                    started && final(self)@ == (GuiSessionView {
                        recording: true,
                        logs: gui_log_after_push(cleared.logs, (ts@, GuiLogLevel::Info, msg)),
                        ..cleared
                    })
                }
            }),
    {
        self.stop(ts.clone());
        self.partial_text = String::new();
        self.segments = Vec::new();
        self.logs = Vec::new();
        proof {
            assert(self@.segments =~= Seq::<(u32, Seq<char>)>::empty());
            assert(self@.logs =~= Seq::<GuiLogView>::empty());
        }
        if from_file {
            match file_name {
                None => {
                    self.add_log(ts, GuiLogLevel::Warn, String::from_str("Please select a WAV file first"));
                    return false;
                },
                Some(n) => {
                    let mut v = chars_of("Sending file: ");
                    append_str(&mut v, n.as_str());
                    self.add_log(ts, GuiLogLevel::Info, string_from_chars(v.as_slice()));
                },
            }
        } else {
            self.add_log(ts, GuiLogLevel::Info, String::from_str("Started microphone recording..."));
        }
        self.recording = true;
        true
    }

    /// Whether the window is recording.
    pub fn is_recording(&self) -> (b: bool)
        ensures
            b == self@.recording,
    {
        self.recording
    }

    /// The partial result shown.
    pub fn partial_text(&self) -> (r: String)
        ensures
            r@ == self@.partial_text,
    {
        self.partial_text.clone()
    }

    /// The final segments, in the order they arrived.
    pub fn segment_count(&self) -> (r: usize)
        ensures
            r == self@.segments.len(),
    {
        self.segments.len()
    }

    /// The number of log lines kept.
    pub fn log_count(&self) -> (r: usize)
        ensures
            r == self@.logs.len(),
    {
        self.logs.len()
    }
}

} // verus!

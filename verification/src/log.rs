//! Diagnostics log: the line format (`HH:MM:SS.mmm [LEVEL] [module] message`)
//! and the bounded buffer of recent entries shown in the UI.
use vstd::prelude::*;
use crate::text::{append_chars, append_str, string_from_chars, zero_padded, zero_padded_decimal};

verus! {

/// Most log entries kept for the UI.
pub const MAX_LOG_ENTRIES: usize = 200;

/// One log entry.
#[derive(Clone, Debug)]
pub struct LogEntry {
    /// Milliseconds since the Unix epoch.
    pub timestamp: u64,
    pub level: String,
    pub message: String,
    pub module: String,
}

/// A log entry as plain values.
pub struct LogEntryView {
    pub timestamp: u64,
    pub level: Seq<char>,
    pub message: Seq<char>,
    pub module: Seq<char>,
}

impl View for LogEntry {
    type V = LogEntryView;

    open spec fn view(&self) -> LogEntryView {
        LogEntryView {
            timestamp: self.timestamp,
            level: self.level@,
            message: self.message@,
            module: self.module@,
        }
    }
}

/// The log line for an entry: UTC time of day with milliseconds, level, module, message.
pub open spec fn log_line(ts: u64, level: Seq<char>, module: Seq<char>, message: Seq<char>) -> Seq<char> {
    let secs = ts / 1000;
    zero_padded(((secs / 3600) % 24) as nat, 2) + seq![':'] + zero_padded(((secs / 60) % 60) as nat, 2)
        + seq![':'] + zero_padded((secs % 60) as nat, 2) + seq!['.'] + zero_padded((ts % 1000) as nat, 3)
        + seq![' ', '['] + level + seq![']', ' ', '['] + module + seq![']', ' '] + message + seq!['\n']
}

/// Format a log line.
pub fn format_log_line(ts: u64, level: &str, module: &str, message: &str) -> (r: String)
    ensures
        r@ == log_line(ts, level@, module@, message@),
{
    let secs = ts / 1000;
    let mut v = zero_padded_decimal((secs / 3600) % 24, 2);
    v.push(':');
    append_chars(&mut v, zero_padded_decimal((secs / 60) % 60, 2).as_slice());
    v.push(':');
    append_chars(&mut v, zero_padded_decimal(secs % 60, 2).as_slice());
    v.push('.');
    append_chars(&mut v, zero_padded_decimal(ts % 1000, 3).as_slice());
    v.push(' ');
    v.push('[');
    append_str(&mut v, level);
    v.push(']');
    v.push(' ');
    v.push('[');
    append_str(&mut v, module);
    v.push(']');
    v.push(' ');
    append_str(&mut v, message);
    v.push('\n');
    let r = string_from_chars(v.as_slice());
    proof {
        assert(r@ =~= log_line(ts, level@, module@, message@));
    }
    r
}

/// The recent log entries shown in the UI, oldest first.
pub struct LogBuffer {
    entries: Vec<LogEntry>,
}

impl View for LogBuffer {
    type V = Seq<LogEntryView>;

    closed spec fn view(&self) -> Seq<LogEntryView> {
        self.entries@.map_values(|e: LogEntry| e@)
    }
}

/// The entries after `e` is added: the oldest leaves when there are more than the maximum.
pub open spec fn entries_after_push(es: Seq<LogEntryView>, e: LogEntryView) -> Seq<LogEntryView> {
    if es.push(e).len() > MAX_LOG_ENTRIES {
        es.push(e).drop_first()
    } else {
        es.push(e)
    }
}

/// Milliseconds since the Unix epoch by the system clock.
pub fn now_ms() -> u64 {
    crate::osc::clock_now_ms()
}

impl LogBuffer {
    /// An empty log.
    pub fn new() -> (b: Self)
        ensures
            b@ == Seq::<LogEntryView>::empty(),
    {
        let b = LogBuffer { entries: Vec::new() };
        proof {
            assert(b@ =~= Seq::<LogEntryView>::empty());
        }
        b
    }

    /// Add an entry, dropping the oldest beyond [`MAX_LOG_ENTRIES`].
    pub fn push(&mut self, e: LogEntry)
        ensures
            final(self)@ == entries_after_push(old(self)@, e@),
    {
        let ghost e0 = self.entries@;
        self.entries.push(e);
        proof {
            assert(self.entries@.map_values(|e: LogEntry| e@) =~= e0.map_values(|e: LogEntry| e@).push(e@));
        }
        if self.entries.len() > MAX_LOG_ENTRIES {
            let ghost e1 = self.entries@;
            self.entries.remove(0);
            proof {
                assert(self.entries@.map_values(|e: LogEntry| e@) =~= e1.map_values(|e: LogEntry| e@).drop_first());
            }
        }
    }

    /// The recent entries, oldest first.
    pub fn get_recent_logs(&self) -> (r: Vec<LogEntry>)
        ensures
            r@.map_values(|e: LogEntry| e@) == self@,
    {
        let mut r: Vec<LogEntry> = Vec::new();
        let mut i: usize = 0;
        while i < self.entries.len()
            invariant
                i <= self.entries@.len(),
                r@.map_values(|e: LogEntry| e@) == self@.take(i as int),
            decreases self.entries@.len() - i,
        {
            let e = &self.entries[i];
            let c = LogEntry {
                timestamp: e.timestamp,
                level: e.level.clone(),
                message: e.message.clone(),
                module: e.module.clone(),
            };
            let ghost r0 = r@;
            r.push(c);
            proof {
                assert(r@.map_values(|e: LogEntry| e@) =~= r0.map_values(|e: LogEntry| e@).push(c@));
                assert(self@.take(i + 1) =~= self@.take(i as int).push(self@[i as int]));
            }
            i = i + 1;
        }
        proof {
            assert(self@.take(i as int) =~= self@);
        }
        r
    }

    /// Forget all entries.
    pub fn clear_logs(&mut self)
        ensures
            final(self)@ == Seq::<LogEntryView>::empty(),
    {
        self.entries = Vec::new();
        proof {
            assert(self@ =~= Seq::<LogEntryView>::empty());
        }
    }

    /// Record a message at time `ts` (ms): the entry joins the buffer and the
    /// formatted line is returned for the console and the log file.
    pub fn log_at(&mut self, ts: u64, level: &str, module: &str, message: &str) -> (line: String)
        ensures
            line@ == log_line(ts, level@, module@, message@),
            final(self)@ == entries_after_push(
                old(self)@,
                LogEntryView { timestamp: ts, level: level@, message: message@, module: module@ },
            ),
    {
        let line = format_log_line(ts, level, module, message);
        self.push(LogEntry {
            timestamp: ts,
            level: level.to_owned(),
            message: message.to_owned(),
            module: module.to_owned(),
        });
        line
    }
}

/// What logging `message` at `level` did: at some clock reading `ts` the entry
/// joined the buffer and `line` is its log line.
pub open spec fn logged(
    old_entries: Seq<LogEntryView>,
    new_entries: Seq<LogEntryView>,
    line: Seq<char>,
    level: Seq<char>,
    module: Seq<char>,
    message: Seq<char>,
) -> bool {
    exists|ts: u64|
        #![trigger log_line(ts, level, module, message)]
        line == log_line(ts, level, module, message) && new_entries == entries_after_push(
            old_entries,
            LogEntryView { timestamp: ts, level, message, module },
        )
}

fn log_now(buffer: &mut LogBuffer, level: &str, module: &str, message: &str) -> (line: String)
    ensures
        logged(old(buffer)@, final(buffer)@, line@, level@, module@, message@),
{
    let ts = now_ms();
    let line = buffer.log_at(ts, level, module, message);
    proof {
        let _ = log_line(ts, level@, module@, message@);
    }
    line
}

/// Log at INFO level now.
pub fn info(buffer: &mut LogBuffer, module: &str, message: &str) -> (line: String)
    ensures
        logged(old(buffer)@, final(buffer)@, line@, "INFO"@, module@, message@),
{
    log_now(buffer, "INFO", module, message)
}

/// Log at WARN level now.
pub fn warn(buffer: &mut LogBuffer, module: &str, message: &str) -> (line: String)
    ensures
        logged(old(buffer)@, final(buffer)@, line@, "WARN"@, module@, message@),
{
    log_now(buffer, "WARN", module, message)
}

/// Log at ERROR level now.
pub fn error(buffer: &mut LogBuffer, module: &str, message: &str) -> (line: String)
    ensures
        logged(old(buffer)@, final(buffer)@, line@, "ERROR"@, module@, message@),
{
    log_now(buffer, "ERROR", module, message)
}

/// Log at DEBUG level now (detailed, high-frequency).
pub fn debug(buffer: &mut LogBuffer, module: &str, message: &str) -> (line: String)
    ensures
        logged(old(buffer)@, final(buffer)@, line@, "DEBUG"@, module@, message@),
{
    log_now(buffer, "DEBUG", module, message)
}

} // verus!

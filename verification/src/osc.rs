//! The chatbox sender: a buffer of recent sentences shown as the last few
//! lines, partial results appended below them, and the OSC messages that
//! carry the text to the chatbox.
use vstd::prelude::*;
use vstd::utf8::encode_utf8;
use crate::text::{chars_of, string_from_chars, trim, trim_str};

verus! {

/// `n` rounded up to a multiple of four.
pub open spec fn pad4(n: nat) -> nat {
    if n % 4 == 0 {
        n
    } else {
        (n + (4 - n % 4)) as nat
    }
}

/// An OSC string: the bytes, a terminating zero, then zeros up to a multiple of four.
pub open spec fn osc_string(b: Seq<u8>) -> Seq<u8> {
    b + Seq::new((pad4(b.len() + 1) - b.len()) as nat, |i: int| 0u8)
}

/// One argument of an OSC message, as the chatbox messages use them.
pub enum OscArg {
    Str(String),
    Bool(bool),
}

/// An [`OscArg`] as a plain value.
pub enum OscArgView {
    Str(Seq<char>),
    Bool(bool),
}

impl View for OscArg {
    type V = OscArgView;

    open spec fn view(&self) -> OscArgView {
        match self {
            OscArg::Str(s) => OscArgView::Str(s@),
            OscArg::Bool(b) => OscArgView::Bool(*b),
        }
    }
}

/// The type tag of one argument: `s` for a string, `T` or `F` for a boolean.
pub open spec fn osc_type_tag(a: OscArgView) -> u8 {
    match a {
        OscArgView::Str(_) => 0x73u8,
        OscArgView::Bool(b) => if b { 0x54u8 } else { 0x46u8 },
    }
}

/// The type tags of all arguments, in order.
pub open spec fn osc_type_tags(args: Seq<OscArgView>) -> Seq<u8>
    decreases args.len(),
{
    if args.len() == 0 {
        Seq::empty()
    } else {
        osc_type_tags(args.drop_last()).push(osc_type_tag(args.last()))
    }
}

/// The argument data: a string argument as an OSC string; a boolean carries none.
pub open spec fn osc_arg_data(args: Seq<OscArgView>) -> Seq<u8>
    decreases args.len(),
{
    if args.len() == 0 {
        Seq::empty()
    } else {
        osc_arg_data(args.drop_last()) + match args.last() {
            OscArgView::Str(s) => osc_string(encode_utf8(s)),
            OscArgView::Bool(_) => Seq::empty(),
        }
    }
}

/// The wire form of an OSC message: the address, the type tag string
/// (a comma and one tag per argument), then the argument data.
pub open spec fn osc_message_bytes(addr: Seq<char>, args: Seq<OscArgView>) -> Seq<u8> {
    osc_string(encode_utf8(addr)) + osc_string(seq![0x2cu8] + osc_type_tags(args)) + osc_arg_data(args)
}

/// Encodes an OSC message with `rosc::encoder::encode`.
/// Its contract states the OSC 1.0 byte layout that the crate writes for string
/// and boolean arguments; `encode` cannot fail when it writes into a `Vec`.
#[verifier::external_body]
pub(crate) fn encode_osc_message(addr: &str, args: &Vec<OscArg>) -> (r: Vec<u8>)
    ensures
        r@ == osc_message_bytes(addr@, args@.map_values(|a: OscArg| a@)),
{
    let msg = rosc::OscMessage {
        addr: addr.to_string(),
        args: args.iter().map(|a| match a {
            OscArg::Str(s) => rosc::OscType::String(s.clone()),
            OscArg::Bool(b) => rosc::OscType::Bool(*b),
        }).collect(),
    };
    match rosc::encoder::encode(&rosc::OscPacket::Message(msg)) {
        Ok(bytes) => bytes,
        Err(_) => Vec::new(),
    }
}

} // verus!

verus! {

/// A punctuation mark that is removed from the end of a displayed sentence:
/// 。，！？；：、,.;:!?~～…—
pub open spec fn is_trailing_punctuation(c: char) -> bool {
    let u = c as u32;
    ||| u == 0x3002 || u == 0xff0c || u == 0xff01 || u == 0xff1f || u == 0xff1b || u == 0xff1a
    ||| u == 0x3001 || u == 0x2c || u == 0x2e || u == 0x3b || u == 0x3a || u == 0x21
    ||| u == 0x3f || u == 0x7e || u == 0xff5e || u == 0x2026 || u == 0x2014
}

fn is_trailing_punctuation_exec(c: char) -> (b: bool)
    ensures
        b == is_trailing_punctuation(c),
{
    let u = c as u32;
    u == 0x3002 || u == 0xff0c || u == 0xff01 || u == 0xff1f || u == 0xff1b || u == 0xff1a || u
        == 0x3001 || u == 0x2c || u == 0x2e || u == 0x3b || u == 0x3a || u == 0x21 || u == 0x3f
        || u == 0x7e || u == 0xff5e || u == 0x2026 || u == 0x2014
}

/// `s` without the trailing punctuation marks at its end.
pub open spec fn strip_trailing(s: Seq<char>) -> Seq<char>
    decreases s.len(),
{
    if s.len() > 0 && is_trailing_punctuation(s.last()) {
        strip_trailing(s.drop_last())
    } else {
        s
    }
}

proof fn lemma_strip_trailing_take(s: Seq<char>, i: int)
    requires
        0 <= i <= s.len(),
        forall|j: int| i <= j < s.len() ==> is_trailing_punctuation(#[trigger] s[j]),
    ensures
        strip_trailing(s) == strip_trailing(s.take(i)),
    decreases s.len() - i,
{
    if i < s.len() {
        assert(is_trailing_punctuation(s[s.len() - 1]));
        assert(s.drop_last().take(i) =~= s.take(i));
        assert forall|j: int| i <= j < s.drop_last().len() implies is_trailing_punctuation(
            #[trigger] s.drop_last()[j],
        ) by {
            assert(s.drop_last()[j] == s[j]);
        }
        lemma_strip_trailing_take(s.drop_last(), i);
    } else {
        assert(s.take(i) =~= s);
    }
}

/// The lines joined by `\n`.
pub open spec fn join_lines(lines: Seq<Seq<char>>) -> Seq<char>
    decreases lines.len(),
{
    if lines.len() == 0 {
        Seq::empty()
    } else if lines.len() == 1 {
        lines[0]
    } else {
        join_lines(lines.drop_last()) + seq!['\n'] + lines.last()
    }
}

/// The last `n` elements of `s` (all of them when there are fewer).
pub open spec fn last_n<T>(s: Seq<T>, n: nat) -> Seq<T> {
    if s.len() <= n {
        s
    } else {
        s.skip(s.len() - n)
    }
}

fn join_lines_exec(lines: &[Vec<char>]) -> (r: Vec<char>)
    ensures
        r@ == join_lines(lines@.map_values(|l: Vec<char>| l@)),
{
    let ghost ls = lines@.map_values(|l: Vec<char>| l@);
    let mut r: Vec<char> = Vec::new();
    let mut i: usize = 0;
    while i < lines.len()
        invariant
            i <= lines@.len(),
            ls == lines@.map_values(|l: Vec<char>| l@),
            r@ == join_lines(ls.take(i as int)),
        decreases lines@.len() - i,
    {
        proof {
            assert(ls.take(i + 1).drop_last() =~= ls.take(i as int));
            assert(ls.take(i + 1).last() == lines@[i as int]@);
        }
        if i > 0 {
            r.push('\n');
        }
        let line = &lines[i];
        let mut k: usize = 0;
        let ghost r0 = r@;
        while k < line.len()
            invariant
                k <= line@.len(),
                r@ == r0 + line@.take(k as int),
            decreases line@.len() - k,
        {
            r.push(line[k]);
            proof {
                assert(line@.take(k + 1) =~= line@.take(k as int).push(line@[k as int]));
            }
            k = k + 1;
        }
        proof {
            assert(line@.take(k as int) =~= line@);
            if i == 0 {
                assert(ls.take(1).len() == 1);
                assert(r0 =~= Seq::<char>::empty());
                assert(r@ =~= ls.take(1)[0]);
            }
        }
        i = i + 1;
    }
    proof {
        assert(ls.take(lines@.len() as int) =~= ls);
    }
    r
}

} // verus!

verus! {

/// The OSC address of the chatbox text.
pub open spec fn chatbox_input_addr() -> Seq<char> {
    "/chatbox/input"@
}

/// The chatbox message for `text`: shown at once, without the notification sound.
pub open spec fn chatbox_input_bytes(text: Seq<char>) -> Seq<u8> {
    osc_message_bytes(
        chatbox_input_addr(),
        seq![OscArgView::Str(text), OscArgView::Bool(true), OscArgView::Bool(false)],
    )
}

/// The typing-indicator message.
pub open spec fn chatbox_typing_bytes(is_typing: bool) -> Seq<u8> {
    osc_message_bytes("/chatbox/typing"@, seq![OscArgView::Bool(is_typing)])
}

/// The text shown while the recognizer is stopped.
pub open spec fn stopped_notice() -> Seq<char> {
    "\u{8bed}\u{97f3}\u{8bc6}\u{522b}\u{5df2}\u{505c}\u{6b62}"@
}

/// A chatbox message ready to be sent: the text it carries and its bytes.
pub struct OscDatagram {
    pub text: String,
    pub bytes: Vec<u8>,
}

struct OutputMessage {
    text: String,
    timestamp: u64,
}

/// Sends recognized text to the chatbox, keeping the last sentences on screen.
pub struct OscSender {
    host: String,
    port: u16,
    line_count: usize,
    retention_secs: u64,
    remove_period: bool,
    buffer: Vec<OutputMessage>,
    last_sent: String,
}

/// What an [`OscSender`] holds, as plain values.
pub struct OscSenderView {
    pub host: Seq<char>,
    pub port: u16,
    /// How many buffered sentences are shown.
    pub line_count: usize,
    /// How long a sentence stays in the buffer, in seconds.
    pub retention_secs: u64,
    /// Whether trailing punctuation is removed from sentences.
    pub remove_period: bool,
    /// Buffered sentences with the time (ms) they were added, oldest first.
    pub buffer: Seq<(Seq<char>, u64)>,
    /// The text of the last message that was sent.
    pub last_sent: Seq<char>,
}

impl View for OscSender {
    type V = OscSenderView;

    closed spec fn view(&self) -> OscSenderView {
        OscSenderView {
            host: self.host@,
            port: self.port,
            line_count: self.line_count,
            retention_secs: self.retention_secs,
            remove_period: self.remove_period,
            buffer: self.buffer@.map_values(|m: OutputMessage| (m.text@, m.timestamp)),
            last_sent: self.last_sent@,
        }
    }
}

/// The texts of buffered sentences, in order.
pub open spec fn buffer_texts(buffer: Seq<(Seq<char>, u64)>) -> Seq<Seq<char>> {
    buffer.map_values(|m: (Seq<char>, u64)| m.0)
}

/// The buffered sentences shown: the last `line_count` of them, one per line.
pub open spec fn shown_text(buffer: Seq<(Seq<char>, u64)>, line_count: nat) -> Seq<char> {
    join_lines(last_n(buffer_texts(buffer), line_count))
}

/// The oldest time a sentence may have to stay buffered at `now`.
pub open spec fn expiry_cutoff(now: u64, retention_secs: u64) -> int {
    if now >= retention_secs * 1000 {
        now - retention_secs * 1000
    } else {
        0
    }
}

/// The buffer without the sentences older than the cutoff.
pub open spec fn unexpired(buffer: Seq<(Seq<char>, u64)>, cutoff: int) -> Seq<(Seq<char>, u64)> {
    buffer.filter(|m: (Seq<char>, u64)| m.1 >= cutoff)
}

/// The text a sentence is shown with.
pub open spec fn display_text(t: Seq<char>, remove_period: bool) -> Seq<char> {
    if remove_period {
        strip_trailing(t)
    } else {
        t
    }
}

/// Milliseconds since the Unix epoch, from `SystemTime::now` (0 if the clock is before it).
#[verifier::external_body]
pub(crate) fn clock_now_ms() -> (r: u64) {
    std::time::SystemTime::now().duration_since(std::time::UNIX_EPOCH).unwrap_or_default().as_millis() as u64
}

} // verus!

verus! {

/// Strip trailing punctuation from text for clean display and chatbox output.
fn strip_trailing_chars(v: &[char]) -> (r: Vec<char>)
    ensures
        r@ == strip_trailing(v@),
{
    let mut b: usize = v.len();
    while b > 0 && is_trailing_punctuation_exec(v[b - 1])
        invariant
            b <= v@.len(),
            forall|j: int| b <= j < v@.len() ==> is_trailing_punctuation(#[trigger] v@[j]),
        decreases b,
    {
        b = b - 1;
    }
    let mut r: Vec<char> = Vec::new();
    let mut i: usize = 0;
    while i < b
        invariant
            i <= b <= v@.len(),
            r@ == v@.take(i as int),
        decreases b - i,
    {
        proof {
            assert(v@.take(i + 1) =~= v@.take(i as int).push(v@[i as int]));
        }
        r.push(v[i]);
        i = i + 1;
    }
    proof {
        lemma_strip_trailing_take(v@, b as int);
        if b > 0 {
            assert(v@.take(b as int).last() == v@[b - 1]);
        }
    }
    r
}

fn chatbox_message(text: String) -> (d: OscDatagram)
    ensures
        d.text@ == text@,
        d.bytes@ == chatbox_input_bytes(text@),
{
    let mut args: Vec<OscArg> = Vec::new();
    args.push(OscArg::Str(text.clone()));
    args.push(OscArg::Bool(true));
    args.push(OscArg::Bool(false));
    proof {
        assert(args@.map_values(|a: OscArg| a@) =~= seq![
            OscArgView::Str(text@),
            OscArgView::Bool(true),
            OscArgView::Bool(false),
        ]);
    }
    let bytes = encode_osc_message("/chatbox/input", &args);
    OscDatagram { text, bytes }
}

impl OscSender {
    /// A sender for `host:port` that shows the last two sentences for five
    /// seconds and removes their trailing punctuation.
    pub fn new(host: String, port: u16) -> (s: Self)
        ensures
            s@.host == host@,
            s@.port == port,
            s@.line_count == 2,
            s@.retention_secs == 5,
            s@.remove_period,
            s@.buffer == Seq::<(Seq<char>, u64)>::empty(),
            s@.last_sent == Seq::<char>::empty(),
    {
        let s = OscSender {
            host,
            port,
            line_count: 2,
            retention_secs: 5,
            remove_period: true,
            buffer: Vec::new(),
            last_sent: String::new(),
        };
        proof {
            assert(s@.buffer =~= Seq::<(Seq<char>, u64)>::empty());
        }
        s
    }

    /// A sender with the given display settings; at least one line is shown.
    pub fn with_config(
        host: String,
        port: u16,
        line_count: usize,
        retention_secs: u64,
        remove_period: bool,
    ) -> (s: Self)
        ensures
            s@.host == host@,
            s@.port == port,
            s@.line_count == if line_count >= 1 { line_count } else { 1 },
            s@.retention_secs == retention_secs,
            s@.remove_period == remove_period,
            s@.buffer == Seq::<(Seq<char>, u64)>::empty(),
            s@.last_sent == Seq::<char>::empty(),
    {
        let s = OscSender {
            host,
            port,
            line_count: if line_count >= 1 { line_count } else { 1 },
            retention_secs,
            remove_period,
            buffer: Vec::new(),
            last_sent: String::new(),
        };
        proof {
            assert(s@.buffer =~= Seq::<(Seq<char>, u64)>::empty());
        }
        s
    }

    /// Milliseconds since the Unix epoch by the system clock.
    pub fn now_ms() -> u64 {
        clock_now_ms()
    }

    /// Strip trailing punctuation from text for clean display and chatbox output.
    pub fn strip_trailing_punctuation(text: &str) -> (r: String)
        ensures
            r@ == strip_trailing(text@),
    {
        let v = chars_of(text);
        let r = strip_trailing_chars(v.as_slice());
        string_from_chars(r.as_slice())
    }

    pub fn host(&self) -> (r: String)
        ensures
            r@ == self@.host,
    {
        self.host.clone()
    }

    pub fn port(&self) -> (r: u16)
        ensures
            r == self@.port,
    {
        self.port
    }

    pub fn line_count(&self) -> (r: usize)
        ensures
            r == self@.line_count,
    {
        self.line_count
    }

    pub fn retention_secs(&self) -> (r: u64)
        ensures
            r == self@.retention_secs,
    {
        self.retention_secs
    }

    pub fn remove_period(&self) -> (r: bool)
        ensures
            r == self@.remove_period,
    {
        self.remove_period
    }

    /// The text of the last message that was sent.
    pub fn last_sent(&self) -> (r: String)
        ensures
            r@ == self@.last_sent,
    {
        self.last_sent.clone()
    }

    /// A message carrying `text` went out: later partial results equal to it are skipped.
    pub fn record_sent(&mut self, text: &str)
        ensures
            final(self)@ == (OscSenderView { last_sent: text@, ..old(self)@ }),
    {
        self.last_sent = text.to_owned();
    }

    /// The buffered sentences, oldest first.
    pub fn buffered_texts(&self) -> (r: Vec<String>)
        ensures
            r@.map_values(|s: String| s@) == buffer_texts(self@.buffer),
    {
        let mut r: Vec<String> = Vec::new();
        let mut i: usize = 0;
        while i < self.buffer.len()
            invariant
                i <= self.buffer@.len(),
                r@.map_values(|s: String| s@) == buffer_texts(self@.buffer).take(i as int),
            decreases self.buffer@.len() - i,
        {
            r.push(self.buffer[i].text.clone());
            proof {
                assert(buffer_texts(self@.buffer).take(i + 1) =~= buffer_texts(self@.buffer).take(
                    i as int,
                ).push(self.buffer@[i as int].text@));
                assert(r@.map_values(|s: String| s@) =~= buffer_texts(self@.buffer).take(i + 1));
            }
            i = i + 1;
        }
        proof {
            assert(buffer_texts(self@.buffer).take(i as int) =~= buffer_texts(self@.buffer));
        }
        r
    }

    /// Add a sentence shown since `timestamp` (ms) at the end of the buffer.
    pub fn push_message(&mut self, text: String, timestamp: u64)
        ensures
            final(self)@ == (OscSenderView {
                buffer: old(self)@.buffer.push((text@, timestamp)),
                ..old(self)@
            }),
    {
        let ghost b0 = self.buffer@;
        self.buffer.push(OutputMessage { text, timestamp });
        proof {
            assert(self@.buffer =~= b0.map_values(|m: OutputMessage| (m.text@, m.timestamp)).push(
                (text@, timestamp),
            ));
        }
    }
}

} // verus!

verus! {

impl OscSender {
    /// Drop the buffered sentences older than the retention period at `now` (ms).
    pub fn expire_messages(&mut self, now: u64)
        requires
            old(self)@.retention_secs * 1000 <= u64::MAX,
        ensures
            final(self)@ == (OscSenderView {
                buffer: unexpired(old(self)@.buffer, expiry_cutoff(now, old(self)@.retention_secs)),
                ..old(self)@
            }),
    {
        let window = self.retention_secs * 1000;
        let cutoff: u64 = if now >= window { now - window } else { 0 };
        let ghost full = self@.buffer;
        let mut old_buf: Vec<OutputMessage> = Vec::new();
        std::mem::swap(&mut old_buf, &mut self.buffer);
        let ghost ob = old_buf@;
        assert(ob.map_values(|m: OutputMessage| (m.text@, m.timestamp)) == full);
        let mut kept: Vec<OutputMessage> = Vec::new();
        let n = old_buf.len();
        let mut rest = old_buf;
        let mut i: usize = 0;
        while i < n
            invariant
                n == ob.len(),
                i <= n,
                rest@ == ob.skip(i as int),
                full == ob.map_values(|m: OutputMessage| (m.text@, m.timestamp)),
                kept@.map_values(|m: OutputMessage| (m.text@, m.timestamp)) == unexpired(
                    full.take(i as int),
                    cutoff as int,
                ),
            decreases n - i,
        {
            let m = rest.remove(0);
            proof {
                reveal_with_fuel(Seq::<_>::filter, 1);
                assert(full.take(i + 1).drop_last() =~= full.take(i as int));
                assert(m == ob[i as int]);
                assert(full.take(i + 1).last() == (m.text@, m.timestamp));
                assert(unexpired(full.take(i + 1), cutoff as int) == if m.timestamp >= cutoff {
                    unexpired(full.take(i as int), cutoff as int).push((m.text@, m.timestamp))
                } else {
                    unexpired(full.take(i as int), cutoff as int)
                });
            }
            if m.timestamp >= cutoff {
                let ghost k0 = kept@;
                kept.push(m);
                proof {
                    assert(kept@.map_values(|m: OutputMessage| (m.text@, m.timestamp)) =~= k0.map_values(
                        |m: OutputMessage| (m.text@, m.timestamp),
                    ).push((m.text@, m.timestamp)));
                }
            }
            i = i + 1;
        }
        proof {
            assert(full.take(n as int) =~= full);
        }
        self.buffer = kept;
    }

    fn shown_lines(&self) -> (r: Vec<Vec<char>>)
        ensures
            r@.map_values(|l: Vec<char>| l@) == last_n(buffer_texts(self@.buffer), self@.line_count as nat),
    {
        let n = self.buffer.len();
        let start: usize = if n <= self.line_count { 0 } else { n - self.line_count };
        let ghost texts = buffer_texts(self@.buffer);
        let mut r: Vec<Vec<char>> = Vec::new();
        let mut i: usize = start;
        while i < n
            invariant
                start <= i <= n == self.buffer@.len(),
                texts == buffer_texts(self@.buffer),
                r@.map_values(|l: Vec<char>| l@) == texts.subrange(start as int, i as int),
            decreases n - i,
        {
            let line = chars_of(self.buffer[i].text.as_str());
            let ghost r0 = r@;
            r.push(line);
            proof {
                assert(r@.map_values(|l: Vec<char>| l@) =~= r0.map_values(|l: Vec<char>| l@).push(
                    texts[i as int],
                ));
                assert(texts.subrange(start as int, i + 1) =~= texts.subrange(start as int, i as int).push(
                    texts[i as int],
                ));
            }
            i = i + 1;
        }
        proof {
            assert(texts.subrange(start as int, n as int) =~= last_n(texts, self.line_count as nat));
        }
        r
    }

    /// The last `line_count` buffered sentences, one per line.
    pub fn combined_text(&self) -> (r: String)
        ensures
            r@ == shown_text(self@.buffer, self@.line_count as nat),
    {
        let lines = self.shown_lines();
        let joined = join_lines_exec(lines.as_slice());
        string_from_chars(joined.as_slice())
    }
}

} // verus!

verus! {

/// The partial-result text: the shown sentences with the partial result on a line below.
pub open spec fn partial_text(buffer: Seq<(Seq<char>, u64)>, line_count: nat, t: Seq<char>) -> Seq<char> {
    join_lines(last_n(buffer_texts(buffer), line_count).push(t))
}

/// The buffer after sentence `t` is added at `now`: shown with its display
/// text, then the expired sentences leave.
pub open spec fn buffer_after_sentence(o: OscSenderView, t: Seq<char>, now: u64) -> Seq<(Seq<char>, u64)> {
    unexpired(o.buffer.push((display_text(t, o.remove_period), now)), expiry_cutoff(now, o.retention_secs))
}

impl OscSender {
    /// Add a final (complete) sentence at time `now` (ms) and build the message
    /// that shows the buffer. The sentence is trimmed; an empty one changes
    /// nothing and yields no message. Sentences past the retention period leave
    /// the buffer.
    pub fn send_chatbox_at(&mut self, text: &str, now: u64) -> (r: Option<OscDatagram>)
        requires
            trim(text@).len() > 0 ==> old(self)@.retention_secs * 1000 <= u64::MAX,
        ensures
            ({
                let t = trim(text@);
                let o = old(self)@;
                if t.len() == 0 {
                    r is None && final(self)@ == o
                } else {
                    let buf = buffer_after_sentence(o, t, now);
                    &&& final(self)@ == (OscSenderView { buffer: buf, ..o })
                    &&& r is Some
                    &&& r->0.text@ == shown_text(buf, o.line_count as nat)
                    &&& r->0.bytes@ == chatbox_input_bytes(r->0.text@)
                }
            }),
    {
        let t = chars_of(trim_str(text).as_str());
        if t.len() == 0 {
            return None;
        }
        let display = if self.remove_period {
            strip_trailing_chars(t.as_slice())
        } else {
            t
        };
        self.push_message(string_from_chars(display.as_slice()), now);
        self.expire_messages(now);
        let combined = self.combined_text();
        Some(chatbox_message(combined))
    }

    /// Add a final (complete) sentence now and build the message that shows the buffer.
    pub fn send_chatbox(&mut self, text: &str) -> (r: Option<OscDatagram>)
        requires
            trim(text@).len() > 0 ==> old(self)@.retention_secs * 1000 <= u64::MAX,
        ensures
            trim(text@).len() == 0 ==> r is None && final(self)@ == old(self)@,
            trim(text@).len() != 0 ==> r is Some && r->0.bytes@ == chatbox_input_bytes(r->0.text@)
                && (exists|now: u64|
                final(self)@ == (OscSenderView {
                    buffer: #[trigger] buffer_after_sentence(old(self)@, trim(text@), now),
                    ..old(self)@
                })) && r->0.text@ == shown_text(final(self)@.buffer, old(self)@.line_count as nat),
    {
        let now = clock_now_ms();
        self.send_chatbox_at(text, now)
    }

    /// Build the message for a partial result: the shown sentences with the
    /// partial result below. Nothing is built for an empty text, or when the
    /// text equals what was sent last.
    pub fn send_partial(&self, text: &str) -> (r: Option<OscDatagram>)
        ensures
            ({
                let t = trim(text@);
                let c = partial_text(self@.buffer, self@.line_count as nat, t);
                if t.len() == 0 || c == self@.last_sent {
                    r is None
                } else {
                    r is Some && r->0.text@ == c && r->0.bytes@ == chatbox_input_bytes(c)
                }
            }),
    {
        let t = chars_of(trim_str(text).as_str());
        if t.len() == 0 {
            return None;
        }
        let mut lines = self.shown_lines();
        let ghost l0 = lines@;
        lines.push(t);
        proof {
            assert(lines@.map_values(|l: Vec<char>| l@) =~= l0.map_values(|l: Vec<char>| l@).push(
                trim(text@),
            ));
        }
        let joined = join_lines_exec(lines.as_slice());
        let last = chars_of(self.last_sent.as_str());
        if crate::text::chars_eq(joined.as_slice(), last.as_slice()) {
            return None;
        }
        Some(chatbox_message(string_from_chars(joined.as_slice())))
    }

    /// The typing-indicator message.
    pub fn send_typing(&self, is_typing: bool) -> (r: Vec<u8>)
        ensures
            r@ == chatbox_typing_bytes(is_typing),
    {
        let mut args: Vec<OscArg> = Vec::new();
        args.push(OscArg::Bool(is_typing));
        proof {
            assert(args@.map_values(|a: OscArg| a@) =~= seq![OscArgView::Bool(is_typing)]);
        }
        encode_osc_message("/chatbox/typing", &args)
    }

    /// Forget all buffered sentences.
    pub fn clear_buffer(&mut self)
        ensures
            final(self)@ == (OscSenderView { buffer: Seq::<(Seq<char>, u64)>::empty(), ..old(self)@ }),
    {
        self.buffer = Vec::new();
        proof {
            assert(self@.buffer =~= Seq::<(Seq<char>, u64)>::empty());
        }
    }

    /// Clear the chatbox: the buffer is emptied, and since the chatbox ignores an
    /// empty text, the message carries a short notice that recognition stopped.
    pub fn clear_chatbox(&mut self) -> (r: OscDatagram)
        ensures
            final(self)@ == (OscSenderView { buffer: Seq::<(Seq<char>, u64)>::empty(), ..old(self)@ }),
            r.text@ == stopped_notice(),
            r.bytes@ == chatbox_input_bytes(stopped_notice()),
    {
        self.clear_buffer();
        chatbox_message(String::from_str("\u{8bed}\u{97f3}\u{8bc6}\u{522b}\u{5df2}\u{505c}\u{6b62}"))
    }
}

} // verus!

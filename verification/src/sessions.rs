//! Recognition sessions: what a speech server sends to a client as the
//! engine decodes (partial results without repeats, numbered final
//! segments), and how the local recognizers turn engine output or server
//! replies into partial results, sentences and the accumulated text.
use vstd::prelude::*;
use crate::text::{append_str, chars_eq, chars_of, str_is_empty, string_from_chars, trim, trim_str};

verus! {

/// A recognition result sent back to a client: `{"text", "is_final", "segment"}`.
pub struct SttResponse {
    pub text: String,
    pub is_final: bool,
    pub segment: u32,
}

/// Whether a binary frame can hold 32-bit float samples: at least one, and a whole number of them.
pub fn binary_frame_accepted(len: usize) -> (b: bool)
    ensures
        b == (len >= 4 && len % 4 == 0),
{
    !(len < 4 || len % 4 != 0)
}

/// A response as plain values: text, whether it is final, segment number.
pub type ResponseView = (Seq<char>, bool, u32);

/// The plain values of a response, if there is one.
pub open spec fn response_view(r: Option<SttResponse>) -> Option<ResponseView> {
    match r {
        Some(x) => Some((x.text@, x.is_final, x.segment)),
        None => None,
    }
}

/// The session after a decoded frame and the response sent for it: at an
/// endpoint, the final text unless blank, then the next segment; otherwise
/// the trimmed partial text when it is not blank and not the last one sent.
pub open spec fn client_step(o: ClientSessionView, endpoint: bool, text: Seq<char>, final_text: Seq<char>) -> (
    ClientSessionView,
    Option<ResponseView>,
) {
    if endpoint {
        (
            ClientSessionView { segment: (o.segment + 1) as u32, last_partial: Seq::empty() },
            if trim(final_text).len() > 0 { Some((final_text, true, o.segment)) } else { None },
        )
    } else {
        let t = trim(text);
        if t.len() > 0 && t != o.last_partial {
            (ClientSessionView { last_partial: t, ..o }, Some((t, false, o.segment)))
        } else {
            (o, None)
        }
    }
}

/// A client connection of the speech server: the current segment number and
/// the last partial result sent.
pub struct ClientSession {
    segment: u32,
    last_partial: String,
}

/// What a [`ClientSession`] holds, as plain values.
pub struct ClientSessionView {
    pub segment: u32,
    pub last_partial: Seq<char>,
}

impl View for ClientSession {
    type V = ClientSessionView;

    closed spec fn view(&self) -> ClientSessionView {
        ClientSessionView { segment: self.segment, last_partial: self.last_partial@ }
    }
}

impl ClientSession {
    /// A new connection: segment 0, nothing sent.
    pub fn new() -> (s: Self)
        ensures
            s@.segment == 0,
            s@.last_partial == Seq::<char>::empty(),
    {
        ClientSession { segment: 0, last_partial: String::new() }
    }

    /// The current segment number.
    pub fn segment(&self) -> (r: u32)
        ensures
            r == self@.segment,
    {
        self.segment
    }

    /// After decoding a frame. At an endpoint, the punctuated text
    /// `final_text` is sent as the final result of the current segment unless
    /// it is blank, and the next segment begins. Otherwise the trimmed partial
    /// `text` is sent when it is not blank and differs from the last one sent.
    pub fn on_decoded(&mut self, endpoint: bool, text: &str, final_text: &str) -> (r: Option<SttResponse>)
        requires
            endpoint ==> old(self)@.segment < u32::MAX,
        ensures
            (final(self)@, response_view(r)) == client_step(old(self)@, endpoint, text@, final_text@),
    {
        if endpoint {
            let seg = self.segment;
            let r = if !str_is_empty(trim_str(final_text).as_str()) {
                Some(SttResponse { text: final_text.to_owned(), is_final: true, segment: seg })
            } else {
                None
            };
            self.segment = seg + 1;
            self.last_partial = String::new();
            r
        } else {
            let t = trim_str(text);
            let tv = chars_of(t.as_str());
            let lv = chars_of(self.last_partial.as_str());
            if tv.len() > 0 && !chars_eq(tv.as_slice(), lv.as_slice()) {
                self.last_partial = t.clone();
                Some(SttResponse { text: t, is_final: false, segment: self.segment })
            } else {
                None
            }
        }
    }

    /// When the client leaves: the remaining text (if any), punctuated as
    /// `final_text`, is sent as the final result of the current segment
    /// unless either is blank.
    pub fn flush(&self, text: &str, final_text: &str) -> (r: Option<SttResponse>)
        ensures
            trim(text@).len() > 0 && trim(final_text@).len() > 0 ==> r is Some && r->0.text@ == final_text@
                && r->0.is_final && r->0.segment == self@.segment,
            !(trim(text@).len() > 0 && trim(final_text@).len() > 0) ==> r is None,
    {
        if !str_is_empty(trim_str(text).as_str()) && !str_is_empty(trim_str(final_text).as_str()) {
            Some(SttResponse { text: final_text.to_owned(), is_final: true, segment: self.segment })
        } else {
            None
        }
    }
}

/// What a local recognizer reports for one step.
pub enum RecognitionEvent {
    /// Nothing to report.
    Nothing,
    /// An intermediate result to display.
    Partial(String),
    /// A completed sentence.
    Sentence(String),
}

/// `text` followed by a newline.
pub open spec fn with_newline(text: Seq<char>) -> Seq<char> {
    text + seq!['\n']
}

/// A local recognition run: the text recognized so far (one sentence per
/// line) and the last partial result reported.
pub struct LocalSession {
    full_text: String,
    last_partial: String,
}

/// What a [`LocalSession`] holds, as plain values.
pub struct LocalSessionView {
    pub full_text: Seq<char>,
    pub last_partial: Seq<char>,
}

impl View for LocalSession {
    type V = LocalSessionView;

    closed spec fn view(&self) -> LocalSessionView {
        LocalSessionView { full_text: self.full_text@, last_partial: self.last_partial@ }
    }
}

impl LocalSession {
    /// Nothing recognized yet.
    pub fn new() -> (s: Self)
        ensures
            s@.full_text == Seq::<char>::empty(),
            s@.last_partial == Seq::<char>::empty(),
    {
        LocalSession { full_text: String::new(), last_partial: String::new() }
    }

    /// The text recognized so far.
    pub fn full_text(&self) -> (r: String)
        ensures
            r@ == self@.full_text,
    {
        self.full_text.clone()
    }

    fn add_sentence(&mut self, s: &str)
        ensures
            final(self)@ == (LocalSessionView {
                full_text: old(self)@.full_text + with_newline(s@),
                ..old(self)@
            }),
    {
        let mut v = chars_of(self.full_text.as_str());
        append_str(&mut v, s);
        v.push('\n');
        self.full_text = string_from_chars(v.as_slice());
        proof {
            assert(self.full_text@ =~= old(self)@.full_text + with_newline(s@));
        }
    }

    /// A reply of the speech server (`text`, `is_final`). A final text,
    /// trimmed, is a sentence unless blank; a partial text is reported as it
    /// is, except after the end of audio (`late`), when only finals count.
    pub fn on_server_reply(&mut self, text: Option<String>, is_final: Option<bool>, late: bool) -> (e: RecognitionEvent)
        ensures
            ({
                let fin = is_final is Some && is_final->0;
                match text {
                    None => e is Nothing && final(self)@ == old(self)@,
                    Some(t) => if fin {
                        if trim(t@).len() > 0 {
                            e matches RecognitionEvent::Sentence(s) && s@ == trim(t@)
                                && final(self)@ == (LocalSessionView {
                                    full_text: old(self)@.full_text + with_newline(trim(t@)),
                                    ..old(self)@
                                })
                        } else {
                            e is Nothing && final(self)@ == old(self)@
                        }
                    } else if late {
                        e is Nothing && final(self)@ == old(self)@
                    } else {
                        e matches RecognitionEvent::Partial(p) && p@ == t@ && final(self)@ == old(self)@
                    },
                }
            }),
    {
        match text {
            None => RecognitionEvent::Nothing,
            Some(t) => {
                let fin = match is_final {
                    Some(f) => f,
                    None => false,
                };
                if fin {
                    let s = trim_str(t.as_str());
                    if !str_is_empty(s.as_str()) {
                        self.add_sentence(s.as_str());
                        RecognitionEvent::Sentence(s)
                    } else {
                        RecognitionEvent::Nothing
                    }
                } else if late {
                    RecognitionEvent::Nothing
                } else {
                    RecognitionEvent::Partial(t)
                }
            },
        }
    }

    /// In-process engine output after a chunk. At an endpoint, a non-blank
    /// text is completed with its punctuated form `final_text`, which is a
    /// sentence unless blank; the remembered partial is cleared. Otherwise the
    /// trimmed text is a partial result when not blank and, with `dedup`, when
    /// it differs from the last one reported.
    pub fn on_engine_output(&mut self, endpoint: bool, text: Option<String>, final_text: &str, dedup: bool) -> (e: RecognitionEvent)
        ensures
            endpoint ==> ({
                let sentence = text is Some && trim(text->0@).len() > 0 && trim(final_text@).len() > 0;
                &&& final(self)@.last_partial == Seq::<char>::empty()
                &&& sentence ==> (e matches RecognitionEvent::Sentence(s) && s@ == final_text@)
                    && final(self)@.full_text == old(self)@.full_text + with_newline(final_text@)
                &&& !sentence ==> e is Nothing && final(self)@.full_text == old(self)@.full_text
            }),
            !endpoint ==> match text {
                None => e is Nothing && final(self)@ == old(self)@,
                Some(t) => {
                    let p = trim(t@);
                    if p.len() > 0 && (!dedup || p != old(self)@.last_partial) {
                        (e matches RecognitionEvent::Partial(x) && x@ == p) && final(self)@ == (LocalSessionView {
                            last_partial: if dedup { p } else { old(self)@.last_partial },
                            ..old(self)@
                        })
                    } else {
                        e is Nothing && final(self)@ == old(self)@
                    }
                },
            },
    {
        if endpoint {
            let mut e = RecognitionEvent::Nothing;
            match &text {
                Some(t) => {
                    if !str_is_empty(trim_str(t.as_str()).as_str()) && !str_is_empty(trim_str(final_text).as_str()) {
                        self.add_sentence(final_text);
                        e = RecognitionEvent::Sentence(final_text.to_owned());
                    }
                },
                None => {},
            }
            self.last_partial = String::new();
            e
        } else {
            match text {
                None => RecognitionEvent::Nothing,
                Some(t) => {
                    let p = trim_str(t.as_str());
                    let pv = chars_of(p.as_str());
                    let lv = chars_of(self.last_partial.as_str());
                    if pv.len() > 0 && (!dedup || !chars_eq(pv.as_slice(), lv.as_slice())) {
                        if dedup {
                            self.last_partial = p.clone();
                        }
                        RecognitionEvent::Partial(p)
                    } else {
                        RecognitionEvent::Nothing
                    }
                },
            }
        }
    }
}

/// The recognizer reached over a WebSocket (a speech server on the network).
pub struct LocalRecognizer {
    server_url: String,
}

impl LocalRecognizer {
    /// A recognizer for the server at `server_url`.
    pub fn new(server_url: String) -> (r: Self)
        ensures
            r.server_url()@ == server_url@,
    {
        LocalRecognizer { server_url }
    }

    /// The server's URL.
    pub closed spec fn server_url(&self) -> String {
        self.server_url
    }

    /// The server's URL.
    pub fn url(&self) -> (r: String)
        ensures
            r@ == self.server_url()@,
    {
        self.server_url.clone()
    }
}

} // verus!

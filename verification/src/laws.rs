//! Properties of the library that span its functions: what every operation
//! keeps, what one call undoes, and what a read gives back of a write.
use vstd::prelude::*;
use vstd::seq_lib::lemma_multiset_commutative;
use crate::audio::{segment_step, SegmentRecorderView, SEGMENT_SILENCE_SAMPLES};
use crate::config::{hotkey_change, trigger_change, ServiceChange};
use crate::e2e::{route_spec, E2eAction, E2eServerView, HttpMethod};
use crate::gui::{gui_log_after_push, GuiLogView, GUI_LOG_LIMIT};
use crate::hybrid::{hybrid_decode, hybrid_reset, HybridDecode, HybridStreamView};
use crate::listeners::{pipe_step, OverlayIpcView, PipeAction, PipePhase};
use crate::log::{entries_after_push, LogEntryView, MAX_LOG_ENTRIES};
use crate::osc::{
    osc_arg_data, osc_message_bytes, osc_string, pad4, OscArgView,
    buffer_after_sentence, buffer_texts, display_text, expiry_cutoff, is_trailing_punctuation, join_lines,
    last_n, shown_text, strip_trailing, unexpired, OscSenderView,
};
use crate::recordings::{insert_desc, is_wav_name, recording_listing, sort_desc, wav_only, RecordingInfo};
use crate::sessions::{client_step, ClientSessionView, ResponseView};
use crate::signing::base64_standard;
use crate::tencent::{insert_by_key, key_lt, sign_string, signature_of, sort_by_key, ParamView};
use crate::text::{all_digits, contains_seq, decimal, digit_char, digits_value, occurs_at, parse_usize, unsigned_digits};
use crate::trigger::{heard_after_push, is_trigger_punctuation, restart_allowed, stripped, trigger_matches, MAX_HEARD_TEXTS};
use crate::vad::{upload_step, vad_step, wrap_add, UploadSend, UploadFilterView, VadDecision, VadFilterView};

verus! {

/// Removing punctuation twice removes nothing more: `strip_punctuation` is idempotent.
pub proof fn law_strip_punctuation_idempotent(s: Seq<char>)
    ensures
        stripped(stripped(s)) == stripped(s),
    decreases s.len(),
{
    reveal(Seq::filter);
    if s.len() > 0 {
        law_strip_punctuation_idempotent(s.drop_last());
        let f = stripped(s.drop_last());
        if !is_trigger_punctuation(s.last()) {
            assert(stripped(s) == f.push(s.last()));
            assert(f.push(s.last()).drop_last() =~= f);
            assert(stripped(f.push(s.last())) == stripped(f).push(s.last()));
        } else {
            assert(stripped(s) == f);
        }
    }
}

/// No punctuation is left in a stripped text.
pub proof fn law_stripped_has_no_punctuation(s: Seq<char>)
    ensures
        forall|i: int| 0 <= i < stripped(s).len() ==> !is_trigger_punctuation(#[trigger] stripped(s)[i]),
{
    assert forall|i: int| 0 <= i < stripped(s).len() implies !is_trigger_punctuation(#[trigger] stripped(s)[i]) by {
        s.lemma_filter_pred(|c: char| !is_trigger_punctuation(c), i);
    }
}

/// Text without punctuation is left as it is.
pub proof fn law_strip_punctuation_keeps_plain_text(s: Seq<char>)
    requires
        forall|i: int| 0 <= i < s.len() ==> !is_trigger_punctuation(#[trigger] s[i]),
    ensures
        stripped(s) == s,
    decreases s.len(),
{
    reveal(Seq::filter);
    if s.len() > 0 {
        assert forall|i: int| 0 <= i < s.drop_last().len() implies !is_trigger_punctuation(#[trigger] s.drop_last()[i]) by {
            assert(s.drop_last()[i] == s[i]);
        }
        law_strip_punctuation_keeps_plain_text(s.drop_last());
        assert(!is_trigger_punctuation(s[s.len() - 1]));
        assert(s.drop_last().push(s.last()) =~= s);
    }
}

/// Trigger matching ignores punctuation in the text and in the phrase:
/// stripping either first does not change whether they match.
pub proof fn law_trigger_match_ignores_punctuation(text: Seq<char>, phrase: Seq<char>)
    ensures
        trigger_matches(stripped(text), phrase) == trigger_matches(text, phrase),
        trigger_matches(text, stripped(phrase)) == trigger_matches(text, phrase),
{
    law_strip_punctuation_idempotent(text);
    law_strip_punctuation_idempotent(phrase);
}

/// A phrase is found in any sentence that holds it, whatever comes before and
/// after it (punctuation included).
pub proof fn law_phrase_found_in_sentence(before: Seq<char>, phrase: Seq<char>, after: Seq<char>)
    ensures
        trigger_matches(before + phrase + after, phrase),
{
    let p = |c: char| !is_trigger_punctuation(c);
    Seq::filter_distributes_over_add(before + phrase, after, p);
    Seq::filter_distributes_over_add(before, phrase, p);
    let sb = stripped(before);
    let sp = stripped(phrase);
    let sa = stripped(after);
    assert(stripped(before + phrase + after) == sb + sp + sa);
    assert((sb + sp + sa).subrange(sb.len() as int, (sb.len() + sp.len()) as int) =~= sp);
    assert(occurs_at(sb + sp + sa, sp, sb.len() as int));
}

/// Stripping the trailing punctuation leaves a prefix of the text that does
/// not end in such a mark, and removes only such marks.
pub proof fn law_strip_trailing_shape(s: Seq<char>)
    ensures
        strip_trailing(s).len() <= s.len(),
        strip_trailing(s) == s.take(strip_trailing(s).len() as int),
        strip_trailing(s).len() > 0 ==> !is_trailing_punctuation(strip_trailing(s).last()),
        forall|i: int| strip_trailing(s).len() <= i < s.len() ==> is_trailing_punctuation(#[trigger] s[i]),
    decreases s.len(),
{
    if s.len() > 0 && is_trailing_punctuation(s.last()) {
        law_strip_trailing_shape(s.drop_last());
        let r = strip_trailing(s.drop_last());
        assert(s.drop_last().take(r.len() as int) =~= s.take(r.len() as int));
        assert forall|i: int| r.len() <= i < s.len() implies is_trailing_punctuation(#[trigger] s[i]) by {
            if i < s.len() - 1 {
                assert(s[i] == s.drop_last()[i]);
            }
        }
    } else {
        assert(s.take(s.len() as int) =~= s);
    }
}

/// Stripping the trailing punctuation twice removes nothing more.
pub proof fn law_strip_trailing_idempotent(s: Seq<char>)
    ensures
        strip_trailing(strip_trailing(s)) == strip_trailing(s),
{
    law_strip_trailing_shape(s);
}

/// The texts heard by the trigger listener never exceed the maximum, and the
/// newest is always kept, last.
pub proof fn law_heard_texts_bounded(heard: Seq<Seq<char>>, t: Seq<char>)
    requires
        heard.len() <= MAX_HEARD_TEXTS,
    ensures
        heard_after_push(heard, t).len() <= MAX_HEARD_TEXTS,
        heard_after_push(heard, t).last() == t,
        heard.len() < MAX_HEARD_TEXTS ==> heard_after_push(heard, t) == heard.push(t),
{
}

/// The log buffer never exceeds the maximum, and the newest entry is kept, last.
pub proof fn law_log_bounded(es: Seq<LogEntryView>, e: LogEntryView)
    requires
        es.len() <= MAX_LOG_ENTRIES,
    ensures
        entries_after_push(es, e).len() <= MAX_LOG_ENTRIES,
        entries_after_push(es, e).last() == e,
        es.len() < MAX_LOG_ENTRIES ==> entries_after_push(es, e) == es.push(e),
{
}

/// A restart is allowed again only once 5 s have passed since the last allowed one.
pub proof fn law_restart_pacing(last: u64, now: u64)
    requires
        last <= now,
    ensures
        restart_allowed(Some(last), now) <==> now - last >= 5000,
        restart_allowed(None, now),
{
}

proof fn lemma_join_lines_ends_with(lines: Seq<Seq<char>>)
    requires
        lines.len() > 0,
    ensures
        join_lines(lines).len() >= lines.last().len(),
        join_lines(lines).subrange(join_lines(lines).len() - lines.last().len(), join_lines(lines).len() as int)
            == lines.last(),
{
    let j = join_lines(lines);
    let l = lines.last();
    if lines.len() == 1 {
        assert(j == lines[0]);
        assert(j.subrange(0, j.len() as int) =~= j);
    } else {
        let pre = join_lines(lines.drop_last()) + seq!['\n'];
        assert(j == pre + l);
        assert((pre + l).subrange(pre.len() as int, (pre.len() + l.len()) as int) =~= l);
    }
}

/// A sentence that is sent is shown on the chatbox: it stays in the buffer
/// (with the trailing punctuation removed when that is configured) as the
/// newest entry, and it is the last line of the shown text, which has at most
/// `line_count` lines.
pub proof fn law_sent_sentence_is_shown(o: OscSenderView, t: Seq<char>, now: u64)
    requires
        o.line_count >= 1,
    ensures
        ({
            let buf = buffer_after_sentence(o, t, now);
            let d = display_text(t, o.remove_period);
            let shown = shown_text(buf, o.line_count as nat);
            &&& buf.len() > 0
            &&& buf.last() == (d, now)
            &&& last_n(buffer_texts(buf), o.line_count as nat).len() <= o.line_count
            &&& shown.len() >= d.len()
            &&& shown.subrange(shown.len() - d.len(), shown.len() as int) == d
        }),
{
    reveal(Seq::filter);
    let d = display_text(t, o.remove_period);
    let cutoff = expiry_cutoff(now, o.retention_secs);
    let pushed = o.buffer.push((d, now));
    assert(pushed.drop_last() =~= o.buffer);
    let buf = buffer_after_sentence(o, t, now);
    assert(buf == unexpired(o.buffer, cutoff).push((d, now)));
    let texts = buffer_texts(buf);
    assert(texts.last() == d);
    let shown_lines = last_n(texts, o.line_count as nat);
    assert(shown_lines.last() == d);
    lemma_join_lines_ends_with(shown_lines);
}

proof fn lemma_decimal_digits(n: nat)
    ensures
        decimal(n).len() > 0,
        all_digits(decimal(n)),
        decimal(n)[0] != '+',
        digits_value(decimal(n)) == n,
    decreases n,
{
    if n >= 10 {
        lemma_decimal_digits(n / 10);
        let d = decimal(n / 10);
        let c = digit_char((n % 10) as int);
        assert(d.push(c).drop_last() =~= d);
        assert(d.push(c)[0] == d[0]);
        assert(digits_value(d.push(c)) == n / 10 * 10 + n % 10);
    } else {
        let c = digit_char(n as int);
        assert(c as int == 48 + n);
        assert(seq![c].drop_last() =~= Seq::<char>::empty());
        assert(seq![c].last() == c);
        assert(digits_value(Seq::<char>::empty()) == 0);
        assert(digits_value(seq![c]) == n);
    }
}

/// A number written in decimal reads back as itself: the saved audio device
/// index (`set_audio_device_index`) is the one read again (`get_audio_device_index`).
pub proof fn law_decimal_roundtrip(n: usize)
    ensures
        parse_usize(decimal(n as nat)) == Some(n),
{
    lemma_decimal_digits(n as nat);
    assert(unsigned_digits(decimal(n as nat)) == decimal(n as nat));
}

/// Base64 turns every started group of three bytes into four characters.
pub proof fn law_base64_length(b: Seq<u8>)
    ensures
        base64_standard(b).len() == 4 * ((b.len() + 2) / 3),
    decreases b.len(),
{
    if b.len() >= 3 {
        law_base64_length(b.skip(3));
    }
}

/// The voice detector reports silence right away when no speech came before,
/// and after speech only once the hangover has run out; a reported silence
/// ends the utterance.
pub proof fn law_vad_hangover(o: VadFilterView, chunk_bytes: nat)
    requires
        o.silence_samples + chunk_bytes / 2 <= usize::MAX,
    ensures
        !o.had_speech ==> vad_step(o, false, chunk_bytes).1 == VadDecision::Silence,
        o.had_speech && o.silence_samples + chunk_bytes / 2 < o.min_silence_samples
            ==> vad_step(o, false, chunk_bytes).1 == VadDecision::Speech,
        vad_step(o, false, chunk_bytes).1 == VadDecision::Silence ==> !vad_step(o, false, chunk_bytes).0.had_speech
            && vad_step(o, false, chunk_bytes).0.silence_samples == 0,
        vad_step(o, true, chunk_bytes).1 == VadDecision::Speech,
{
}

/// A recording cannot be started twice: once `/start` started one, a second
/// `/start` is refused with 409 and starts nothing.
pub proof fn law_e2e_start_once(s: E2eServerView)
    requires
        !s.recording,
    ensures
        route_spec(s, HttpMethod::Post, "/start"@).2 == E2eAction::StartRecording,
        route_spec(E2eServerView { recording: true, ..s }, HttpMethod::Post, "/start"@).0 == 409,
        route_spec(E2eServerView { recording: true, ..s }, HttpMethod::Post, "/start"@).2 == E2eAction::Nothing,
{
}

/// While a segment is being refined, new audio is only kept for later and the
/// refinement goes on; consuming a refined segment clears its text, ends the
/// refinement and moves to the next segment.
pub proof fn law_hybrid_refinement_cycle(o: HybridStreamView, has_speech: bool, n: nat, sample_rate: int)
    ensures
        o.refining ==> hybrid_decode(o, has_speech, n, sample_rate).1 == HybridDecode::Buffered
            && hybrid_decode(o, has_speech, n, sample_rate).0.refining
            && hybrid_decode(o, has_speech, n, sample_rate).0.buffered_samples == o.buffered_samples + n,
        o.refined_text.len() > 0 ==> hybrid_reset(o).0.seg_idx == o.seg_idx + 1
            && hybrid_reset(o).0.refined_text.len() == 0 && !hybrid_reset(o).0.refining
            && hybrid_reset(o).0.buffered_samples == 0,
{
}

proof fn lemma_key_lt_irreflexive(a: Seq<char>)
    ensures
        !key_lt(a, a),
    decreases a.len(),
{
    if a.len() > 0 {
        lemma_key_lt_irreflexive(a.drop_first());
    }
}

proof fn lemma_key_lt_total(a: Seq<char>, b: Seq<char>)
    ensures
        a != b ==> key_lt(a, b) || key_lt(b, a),
    decreases a.len(),
{
    if a.len() == 0 {
        if b.len() == 0 {
            assert(a =~= b);
        }
    } else if b.len() > 0 && a[0] != b[0] {
        vstd::utf8::char_u32_cast(a[0], a[0] as u32);
        vstd::utf8::char_u32_cast(b[0], b[0] as u32);
    } else if b.len() > 0 && a[0] == b[0] {
        lemma_key_lt_total(a.drop_first(), b.drop_first());
        if a.drop_first() == b.drop_first() {
            assert(a =~= seq![a[0]] + a.drop_first());
            assert(b =~= seq![b[0]] + b.drop_first());
        }
    }
}

proof fn lemma_key_lt_transitive(a: Seq<char>, b: Seq<char>, c: Seq<char>)
    requires
        key_lt(a, b),
        key_lt(b, c),
    ensures
        key_lt(a, c),
    decreases a.len(),
{
    if a.len() > 0 && b.len() > 0 && c.len() > 0 && a[0] == b[0] && b[0] == c[0] {
        lemma_key_lt_transitive(a.drop_first(), b.drop_first(), c.drop_first());
    }
}

/// Parameters in order of their names.
pub open spec fn sorted_by_name(s: Seq<ParamView>) -> bool {
    forall|i: int, j: int| 0 <= i < j < s.len() ==> !key_lt(#[trigger] s[j].0, #[trigger] s[i].0)
}

/// No name occurs with two different values.
pub open spec fn names_determine_values(s: Seq<ParamView>) -> bool {
    forall|p: ParamView, q: ParamView| s.contains(p) && s.contains(q) && p.0 == q.0 ==> p == q
}

/// No two parameters share a name.
pub open spec fn distinct_names(s: Seq<ParamView>) -> bool {
    forall|i: int, j: int| 0 <= i < j < s.len() ==> #[trigger] s[i].0 != #[trigger] s[j].0
}

/// Two orderings by name of the same parameters, where a name has one value, are equal.
proof fn lemma_sorted_unique(x: Seq<ParamView>, y: Seq<ParamView>)
    requires
        sorted_by_name(x),
        sorted_by_name(y),
        x.to_multiset() == y.to_multiset(),
        names_determine_values(x),
    ensures
        x == y,
    decreases x.len(),
{
    broadcast use vstd::seq_lib::group_to_multiset_ensures;
    x.to_multiset_ensures();
    y.to_multiset_ensures();
    assert(x.len() == y.len());
    if x.len() == 0 {
        assert(x =~= y);
    } else {
        assert(x.contains(x[0]));
        assert(y.contains(y[0]));
        assert(y.to_multiset().count(x[0]) > 0);
        assert(x.to_multiset().count(y[0]) > 0);
        assert(y.contains(x[0]));
        assert(x.contains(y[0]));
        if x[0] != y[0] {
            let k = choose|k: int| 0 <= k < x.len() && x[k] == y[0];
            let m = choose|m: int| 0 <= m < y.len() && y[m] == x[0];
            assert(k != 0);
            assert(m != 0);
            assert(!key_lt(x[k].0, x[0].0));
            assert(!key_lt(y[m].0, y[0].0));
            lemma_key_lt_total(x[0].0, y[0].0);
            assert(x[0].0 == y[0].0);
            assert(false);
        }
        let x1 = x.remove(0);
        let y1 = y.remove(0);
        assert(x1 =~= x.drop_first());
        assert(y1 =~= y.drop_first());
        assert(x1.to_multiset() == x.to_multiset().remove(x[0]));
        assert(y1.to_multiset() == y.to_multiset().remove(y[0]));
        assert forall|i: int, j: int| 0 <= i < j < x1.len() implies !key_lt(#[trigger] x1[j].0, #[trigger] x1[i].0) by {
            assert(x1[i] == x[i + 1] && x1[j] == x[j + 1]);
        }
        assert forall|i: int, j: int| 0 <= i < j < y1.len() implies !key_lt(#[trigger] y1[j].0, #[trigger] y1[i].0) by {
            assert(y1[i] == y[i + 1] && y1[j] == y[j + 1]);
        }
        assert forall|p: ParamView, q: ParamView| x1.contains(p) && x1.contains(q) && p.0 == q.0 implies p == q by {
            let a = choose|a: int| 0 <= a < x1.len() && x1[a] == p;
            let b = choose|b: int| 0 <= b < x1.len() && x1[b] == q;
            assert(x[a + 1] == p);
            assert(x[b + 1] == q);
            assert(x.contains(p) && x.contains(q));
        }
        lemma_sorted_unique(x1, y1);
        assert(x =~= seq![x[0]] + x1);
        assert(y =~= seq![y[0]] + y1);
    }
}

proof fn lemma_insert_by_key(s: Seq<ParamView>, x: ParamView)
    ensures
        insert_by_key(s, x).to_multiset() == s.to_multiset().insert(x),
        sorted_by_name(s) ==> sorted_by_name(insert_by_key(s, x)),
    decreases s.len(),
{
    broadcast use vstd::seq_lib::group_to_multiset_ensures;
    broadcast use vstd::multiset::group_multiset_axioms;
    if s.len() == 0 {
        assert(seq![x] =~= Seq::<ParamView>::empty().push(x));
    } else if key_lt(x.0, s[0].0) {
        lemma_multiset_commutative(seq![x], s);
        assert(seq![x] =~= Seq::<ParamView>::empty().push(x));
        assert(insert_by_key(s, x).to_multiset() =~= s.to_multiset().insert(x));
        if sorted_by_name(s) {
            let r = seq![x] + s;
            assert forall|i: int, j: int| 0 <= i < j < r.len() implies !key_lt(#[trigger] r[j].0, #[trigger] r[i].0) by {
                if i == 0 {
                    if key_lt(r[j].0, x.0) {
                        lemma_key_lt_transitive(r[j].0, x.0, s[0].0);
                        if j == 1 {
                            lemma_key_lt_irreflexive(s[0].0);
                        } else {
                            assert(r[j] == s[j - 1]);
                            assert(!key_lt(s[j - 1].0, s[0].0));
                        }
                    }
                } else {
                    assert(r[j] == s[j - 1] && r[i] == s[i - 1]);
                }
            }
        }
    } else {
        let rest = s.drop_first();
        lemma_insert_by_key(rest, x);
        let ir = insert_by_key(rest, x);
        lemma_multiset_commutative(seq![s[0]], ir);
        lemma_multiset_commutative(seq![s[0]], rest);
        assert(seq![s[0]] + rest =~= s);
        assert(insert_by_key(s, x).to_multiset() =~= s.to_multiset().insert(x));
        if sorted_by_name(s) {
            assert forall|i: int, j: int| 0 <= i < j < rest.len() implies !key_lt(#[trigger] rest[j].0, #[trigger] rest[i].0) by {
                assert(rest[j] == s[j + 1] && rest[i] == s[i + 1]);
            }
            let r = seq![s[0]] + ir;
            assert forall|i: int, j: int| 0 <= i < j < r.len() implies !key_lt(#[trigger] r[j].0, #[trigger] r[i].0) by {
                if i == 0 {
                    let y = r[j];
                    assert(y == ir[j - 1]);
                    assert(ir.to_multiset().count(y) > 0);
                    if y != x {
                        assert(rest.to_multiset().count(y) > 0);
                        assert(rest.contains(y));
                        let k = choose|k: int| 0 <= k < rest.len() && rest[k] == y;
                        assert(s[k + 1] == y);
                    }
                } else {
                    assert(r[j] == ir[j - 1] && r[i] == ir[i - 1]);
                }
            }
        }
    }
}

/// The request parameters are signed in order of their names, and none is
/// lost or added: the sorted list is ordered and holds exactly the given parameters.
pub proof fn law_params_sorted(params: Seq<ParamView>)
    ensures
        sorted_by_name(sort_by_key(params)),
        sort_by_key(params).to_multiset() == params.to_multiset(),
    decreases params.len(),
{
    broadcast use vstd::seq_lib::group_to_multiset_ensures;
    if params.len() > 0 {
        law_params_sorted(params.drop_last());
        lemma_insert_by_key(sort_by_key(params.drop_last()), params.last());
        assert(params.drop_last().push(params.last()) =~= params);
    } else {
        assert(params.to_multiset() =~= vstd::multiset::Multiset::empty());
        assert(sort_by_key(params).to_multiset() =~= vstd::multiset::Multiset::empty());
    }
}

/// Recordings with the greatest file name first.
pub open spec fn sorted_newest_first(s: Seq<RecordingInfo>) -> bool {
    forall|i: int, j: int| 0 <= i < j < s.len() ==> !key_lt(#[trigger] s[i].filename@, #[trigger] s[j].filename@)
}

proof fn lemma_insert_desc(s: Seq<RecordingInfo>, x: RecordingInfo)
    ensures
        insert_desc(s, x).to_multiset() == s.to_multiset().insert(x),
        sorted_newest_first(s) ==> sorted_newest_first(insert_desc(s, x)),
    decreases s.len(),
{
    broadcast use vstd::seq_lib::group_to_multiset_ensures;
    broadcast use vstd::multiset::group_multiset_axioms;
    if s.len() == 0 {
        assert(seq![x] =~= Seq::<RecordingInfo>::empty().push(x));
    } else if key_lt(s[0].filename@, x.filename@) {
        lemma_multiset_commutative(seq![x], s);
        assert(seq![x] =~= Seq::<RecordingInfo>::empty().push(x));
        assert(insert_desc(s, x).to_multiset() =~= s.to_multiset().insert(x));
        if sorted_newest_first(s) {
            let r = seq![x] + s;
            assert forall|i: int, j: int| 0 <= i < j < r.len() implies !key_lt(#[trigger] r[i].filename@, #[trigger] r[j].filename@) by {
                if i == 0 {
                    if key_lt(x.filename@, r[j].filename@) {
                        lemma_key_lt_transitive(s[0].filename@, x.filename@, r[j].filename@);
                        if j == 1 {
                            lemma_key_lt_irreflexive(s[0].filename@);
                        } else {
                            assert(r[j] == s[j - 1]);
                            assert(!key_lt(s[0].filename@, s[j - 1].filename@));
                        }
                    }
                } else {
                    assert(r[j] == s[j - 1] && r[i] == s[i - 1]);
                }
            }
        }
    } else {
        let rest = s.drop_first();
        lemma_insert_desc(rest, x);
        let ir = insert_desc(rest, x);
        lemma_multiset_commutative(seq![s[0]], ir);
        lemma_multiset_commutative(seq![s[0]], rest);
        assert(seq![s[0]] + rest =~= s);
        assert(insert_desc(s, x).to_multiset() =~= s.to_multiset().insert(x));
        if sorted_newest_first(s) {
            assert forall|i: int, j: int| 0 <= i < j < rest.len() implies !key_lt(#[trigger] rest[i].filename@, #[trigger] rest[j].filename@) by {
                assert(rest[j] == s[j + 1] && rest[i] == s[i + 1]);
            }
            let r = seq![s[0]] + ir;
            assert forall|i: int, j: int| 0 <= i < j < r.len() implies !key_lt(#[trigger] r[i].filename@, #[trigger] r[j].filename@) by {
                if i == 0 {
                    let y = r[j];
                    assert(y == ir[j - 1]);
                    assert(ir.to_multiset().count(y) > 0);
                    if y != x {
                        assert(rest.to_multiset().count(y) > 0);
                        assert(rest.contains(y));
                        let k = choose|k: int| 0 <= k < rest.len() && rest[k] == y;
                        assert(s[k + 1] == y);
                    }
                } else {
                    assert(r[j] == ir[j - 1] && r[i] == ir[i - 1]);
                }
            }
        }
    }
}

proof fn lemma_sort_desc(s: Seq<RecordingInfo>)
    ensures
        sorted_newest_first(sort_desc(s)),
        sort_desc(s).to_multiset() == s.to_multiset(),
    decreases s.len(),
{
    broadcast use vstd::seq_lib::group_to_multiset_ensures;
    if s.len() > 0 {
        lemma_sort_desc(s.drop_last());
        lemma_insert_desc(sort_desc(s.drop_last()), s.last());
        assert(s.drop_last().push(s.last()) =~= s);
    } else {
        assert(s.to_multiset() =~= vstd::multiset::Multiset::empty());
        assert(sort_desc(s).to_multiset() =~= vstd::multiset::Multiset::empty());
    }
}

proof fn lemma_wav_only(s: Seq<RecordingInfo>)
    ensures
        forall|x: RecordingInfo| #[trigger] wav_only(s).contains(x) <==> s.contains(x) && is_wav_name(x.filename@),
    decreases s.len(),
{
    if s.len() > 0 {
        lemma_wav_only(s.drop_last());
        let w = wav_only(s.drop_last());
        assert forall|x: RecordingInfo| #[trigger] wav_only(s).contains(x) <==> s.contains(x) && is_wav_name(x.filename@) by {
            if s.contains(x) && is_wav_name(x.filename@) {
                let k = choose|k: int| 0 <= k < s.len() && s[k] == x;
                if k < s.len() - 1 {
                    assert(s.drop_last()[k] == x);
                    assert(s.drop_last().contains(x));
                    assert(w.contains(x));
                    let m = choose|m: int| 0 <= m < w.len() && w[m] == x;
                    if is_wav_name(s.last().filename@) {
                        assert(wav_only(s) == w.push(s.last()));
                        assert(w.push(s.last())[m] == x);
                    } else {
                        assert(wav_only(s) == w);
                    }
                } else {
                    assert(wav_only(s) == w.push(s.last()));
                    assert(w.push(s.last())[w.len() as int] == x);
                }
            }
            if wav_only(s).contains(x) {
                let m = choose|m: int| 0 <= m < wav_only(s).len() && wav_only(s)[m] == x;
                if is_wav_name(s.last().filename@) && m == w.len() {
                    assert(x == s.last());
                    assert(s[s.len() - 1] == x);
                } else {
                    if is_wav_name(s.last().filename@) {
                        assert(w.push(s.last())[m] == w[m]);
                    }
                    assert(w.contains(x));
                    let k = choose|k: int| 0 <= k < s.drop_last().len() && s.drop_last()[k] == x;
                    assert(s[k] == x);
                }
            }
        }
    }
}

/// The listing of test recordings holds exactly the saved WAV files among the
/// directory entries, each as often as it occurs there, with the greatest
/// (newest) file name first.
pub proof fn law_recording_listing(entries: Seq<RecordingInfo>)
    ensures
        sorted_newest_first(recording_listing(entries)),
        recording_listing(entries).to_multiset() == wav_only(entries).to_multiset(),
        forall|x: RecordingInfo| #[trigger] recording_listing(entries).contains(x)
            <==> entries.contains(x) && is_wav_name(x.filename@),
{
    broadcast use vstd::seq_lib::group_to_multiset_ensures;
    lemma_sort_desc(wav_only(entries));
    lemma_wav_only(entries);
    assert forall|x: RecordingInfo| #[trigger] recording_listing(entries).contains(x)
        <==> entries.contains(x) && is_wav_name(x.filename@) by {
        assert(recording_listing(entries).contains(x) <==> recording_listing(entries).to_multiset().count(x) > 0);
        assert(wav_only(entries).contains(x) <==> wav_only(entries).to_multiset().count(x) > 0);
    }
}

/// The bytes that go to the recognizer for a chunk of `chunk_len` bytes.
pub open spec fn upload_sent_bytes(send: UploadSend, chunk_len: nat) -> nat {
    match send {
        UploadSend::Chunk => chunk_len,
        UploadSend::Zeros(k) => k as nat,
        UploadSend::Nothing => 0,
    }
}

/// The usage counter of the cloud recognizer grows by exactly the bytes sent
/// for each chunk (as a wrapping 64-bit counter), and a filter without the
/// voice detector passes every chunk whole.
pub proof fn law_upload_counts_what_is_sent(
    o: UploadFilterView,
    chunk_len: nat,
    prev_speech: bool,
    decision: VadDecision,
    now_speech: bool,
    now_ms: u64,
)
    requires
        o.vad_enabled || o.count_all,
        chunk_len <= usize::MAX,
    ensures
        ({
            let (n, send) = upload_step(o, chunk_len, prev_speech, decision, now_speech, now_ms);
            n.bytes_sent == wrap_add(o.bytes_sent, upload_sent_bytes(send, chunk_len) as int)
        }),
        !o.vad_enabled ==> upload_step(o, chunk_len, prev_speech, decision, now_speech, now_ms).1 == UploadSend::Chunk,
{
    let (n, send) = upload_step(o, chunk_len, prev_speech, decision, now_speech, now_ms);
    if o.vad_enabled && decision != VadDecision::Speech {
        let flushing: int = if prev_speech && !now_speech { 16000 } else { o.flush_remaining as int };
        if flushing > 0 {
            let samples: int = if flushing < chunk_len / 2 { flushing } else { (chunk_len / 2) as int };
            assert(samples * 2 <= chunk_len);
            if samples * 2 >= chunk_len {
                assert(send == UploadSend::Chunk);
            } else {
                assert(send == UploadSend::Zeros((samples * 2) as usize));
            }
        }
    }
}

/// The test client's log never holds more than 500 lines, and the newest is kept, last.
pub proof fn law_gui_log_bounded(logs: Seq<GuiLogView>, e: GuiLogView)
    requires
        logs.len() <= GUI_LOG_LIMIT,
    ensures
        gui_log_after_push(logs, e).len() <= GUI_LOG_LIMIT,
        gui_log_after_push(logs, e).last() == e,
{
}

proof fn lemma_pad4(n: nat)
    ensures
        pad4(n) % 4 == 0,
        n <= pad4(n) < n + 4,
{
}

/// An OSC string holds the bytes, then at least one zero byte, and its length
/// is a multiple of four.
pub proof fn law_osc_string_padding(b: Seq<u8>)
    ensures
        osc_string(b).len() % 4 == 0,
        osc_string(b).len() > b.len(),
        osc_string(b).take(b.len() as int) == b,
        forall|i: int| b.len() <= i < osc_string(b).len() ==> #[trigger] osc_string(b)[i] == 0u8,
{
    lemma_pad4(b.len() + 1);
    assert(osc_string(b).take(b.len() as int) =~= b);
}

proof fn lemma_osc_arg_data_aligned(args: Seq<OscArgView>)
    ensures
        osc_arg_data(args).len() % 4 == 0,
    decreases args.len(),
{
    if args.len() > 0 {
        lemma_osc_arg_data_aligned(args.drop_last());
        match args.last() {
            OscArgView::Str(t) => law_osc_string_padding(vstd::utf8::encode_utf8(t)),
            OscArgView::Bool(_) => {},
        }
    }
}

/// Every OSC message the library builds is aligned to four bytes, as OSC 1.0 requires.
pub proof fn law_osc_message_aligned(addr: Seq<char>, args: Seq<OscArgView>)
    ensures
        osc_message_bytes(addr, args).len() % 4 == 0,
{
    law_osc_string_padding(vstd::utf8::encode_utf8(addr));
    law_osc_string_padding(seq![0x2cu8] + crate::osc::osc_type_tags(args));
    lemma_osc_arg_data_aligned(args);
}

/// The detector after a run of silent chunks of the given sizes (in samples),
/// with the decision for each.
pub open spec fn silent_run(o: VadFilterView, samples: Seq<nat>) -> (VadFilterView, Seq<VadDecision>)
    decreases samples.len(),
{
    if samples.len() == 0 {
        (o, Seq::empty())
    } else {
        let (p, ds) = silent_run(o, samples.drop_last());
        let (q, d) = vad_step(p, false, 2 * samples.last());
        (q, ds.push(d))
    }
}

/// The sum of the chunk sizes.
pub open spec fn total_samples(samples: Seq<nat>) -> nat
    decreases samples.len(),
{
    if samples.len() == 0 {
        0
    } else {
        total_samples(samples.drop_last()) + samples.last()
    }
}

/// After speech, any run of silent chunks that adds up to fewer samples than
/// the hangover is reported as speech, chunk by chunk, and the utterance goes on.
pub proof fn law_vad_hangover_run(o: VadFilterView, samples: Seq<nat>)
    requires
        o.had_speech,
        o.silence_samples + total_samples(samples) < o.min_silence_samples,
    ensures
        silent_run(o, samples).0 == (VadFilterView {
            silence_samples: (o.silence_samples + total_samples(samples)) as usize,
            ..o
        }),
        silent_run(o, samples).1.len() == samples.len(),
        forall|i: int| 0 <= i < samples.len() ==> #[trigger] silent_run(o, samples).1[i] == VadDecision::Speech,
    decreases samples.len(),
{
    if samples.len() > 0 {
        let pre = samples.drop_last();
        assert(total_samples(samples) == total_samples(pre) + samples.last());
        law_vad_hangover_run(o, pre);
        let (p, ds) = silent_run(o, pre);
        assert((2 * samples.last()) / 2 == samples.last());
        let r = silent_run(o, samples).1;
        assert(r == ds.push(VadDecision::Speech));
        assert forall|i: int| 0 <= i < samples.len() implies #[trigger] r[i] == VadDecision::Speech by {
            if i < pre.len() {
                assert(r[i] == ds[i]);
            }
        }
    }
}

/// A decoded frame of a client connection: endpoint, text, punctuated text.
pub type DecodedFrame = (bool, Seq<char>, Seq<char>);

/// The connection after a run of decoded frames, and the responses sent.
pub open spec fn client_run(o: ClientSessionView, frames: Seq<DecodedFrame>) -> (ClientSessionView, Seq<Option<ResponseView>>)
    decreases frames.len(),
{
    if frames.len() == 0 {
        (o, Seq::empty())
    } else {
        let (p, rs) = client_run(o, frames.drop_last());
        let f = frames.last();
        let (q, r) = client_step(p, f.0, f.1, f.2);
        (q, rs.push(r))
    }
}

/// The segment number a response carries (0 for no response).
pub open spec fn response_segment(r: Option<ResponseView>) -> u32 {
    match r {
        Some(x) => x.2,
        None => 0,
    }
}

/// The number of endpoints among the frames.
pub open spec fn endpoint_count(frames: Seq<DecodedFrame>) -> nat
    decreases frames.len(),
{
    if frames.len() == 0 {
        0
    } else {
        endpoint_count(frames.drop_last()) + if frames.last().0 { 1nat } else { 0nat }
    }
}

/// Segment numbers count endpoints: after any run of frames the connection is
/// at its first segment number plus the endpoints seen, and every response
/// carries the number of the segment it belongs to, so final results are
/// numbered one after another.
pub proof fn law_segments_count_endpoints(o: ClientSessionView, frames: Seq<DecodedFrame>)
    requires
        o.segment + endpoint_count(frames) <= u32::MAX,
    ensures
        client_run(o, frames).0.segment == o.segment + endpoint_count(frames),
        client_run(o, frames).1.len() == frames.len(),
        forall|i: int| 0 <= i < frames.len() && (#[trigger] client_run(o, frames).1[i]) is Some
            ==> response_segment(client_run(o, frames).1[i]) == o.segment + endpoint_count(frames.take(i)),
    decreases frames.len(),
{
    if frames.len() > 0 {
        let pre = frames.drop_last();
        law_segments_count_endpoints(o, pre);
        let (p, rs) = client_run(o, pre);
        let f = frames.last();
        let r = client_run(o, frames).1;
        assert(r == rs.push(client_step(p, f.0, f.1, f.2).1));
        assert(frames.take(pre.len() as int) =~= pre);
        assert forall|i: int| 0 <= i < frames.len() && (#[trigger] r[i]) is Some
            implies response_segment(r[i]) == o.segment + endpoint_count(frames.take(i)) by {
            if i < pre.len() {
                assert(r[i] == rs[i]);
                assert(pre.take(i) =~= frames.take(i));
            }
        }
    }
}

/// Only expired sentences leave the chatbox buffer: after a sentence is sent,
/// every buffered sentence is within the retention period, and every one that
/// was within it is still there.
pub proof fn law_retention(o: OscSenderView, t: Seq<char>, now: u64)
    ensures
        ({
            let cutoff = expiry_cutoff(now, o.retention_secs);
            let buf = buffer_after_sentence(o, t, now);
            &&& forall|i: int| 0 <= i < buf.len() ==> #[trigger] buf[i].1 >= cutoff
            &&& forall|i: int| 0 <= i < o.buffer.len() && o.buffer[i].1 >= cutoff ==> buf.contains(
                #[trigger] o.buffer[i],
            )
        }),
{
    let cutoff = expiry_cutoff(now, o.retention_secs);
    let p = |m: (Seq<char>, u64)| m.1 >= cutoff;
    let pushed = o.buffer.push((display_text(t, o.remove_period), now));
    let buf = buffer_after_sentence(o, t, now);
    assert forall|i: int| 0 <= i < buf.len() implies #[trigger] buf[i].1 >= cutoff by {
        pushed.lemma_filter_pred(p, i);
    }
    assert forall|i: int| 0 <= i < o.buffer.len() && o.buffer[i].1 >= cutoff implies buf.contains(
        #[trigger] o.buffer[i],
    ) by {
        assert(pushed[i] == o.buffer[i]);
        pushed.lemma_filter_contains(p, i);
    }
}

/// A stopped pipe server opens no new pipe and stays stopped; from the data
/// loop it writes `bye`, closes the pipe and ends, whatever the outcomes.
pub proof fn law_overlay_stop(s: OverlayIpcView, ok1: bool, ok2: bool, ok3: bool)
    requires
        !s.running,
    ensures
        pipe_step(s, ok1).1 != PipeAction::CreatePipe,
        !pipe_step(s, ok1).0.running,
        s.phase == PipePhase::Serving ==> {
            let (s1, a1) = pipe_step(s, ok1);
            let (s2, a2) = pipe_step(s1, ok2);
            let (s3, a3) = pipe_step(s2, ok3);
            &&& a1 == PipeAction::SendBye
            &&& a2 == PipeAction::ClosePipe
            &&& a3 == PipeAction::Exit
            &&& s3.phase == PipePhase::Stopped
        },
{
}

/// The pipe handshake of a running server: once the HUD connects, `hello` is
/// written, the answer is read, the configuration follows if and only if one
/// was set, and then the data frames begin.
pub proof fn law_overlay_handshake(s: OverlayIpcView)
    requires
        s.running,
        s.phase == PipePhase::Connecting,
    ensures
        ({
            let (s1, a1) = pipe_step(s, true);
            let (s2, a2) = pipe_step(s1, true);
            let (s3, a3) = pipe_step(s2, true);
            let (s4, a4) = pipe_step(s3, true);
            &&& a1 == PipeAction::SendHello
            &&& a2 == PipeAction::ReadReply
            &&& (a3 == PipeAction::SendConfig) == s.config_set
            &&& a3 != PipeAction::SendConfig ==> a3 == PipeAction::SendData
            &&& a3 == PipeAction::SendConfig ==> a4 == PipeAction::SendData
        }),
{
}

/// The request signature does not depend on the order of the parameters:
/// when no two share a name, any reordering sorts alike and so is signed alike.
pub proof fn law_signature_ignores_order(secret_key: Seq<char>, app_id: Seq<char>, a: Seq<ParamView>, b: Seq<ParamView>)
    requires
        distinct_names(a),
        b.to_multiset() == a.to_multiset(),
    ensures
        sort_by_key(a) == sort_by_key(b),
        signature_of(secret_key, app_id, a) == signature_of(secret_key, app_id, b),
{
    broadcast use vstd::seq_lib::group_to_multiset_ensures;
    law_params_sorted(a);
    law_params_sorted(b);
    let sa = sort_by_key(a);
    assert forall|p: ParamView, q: ParamView| sa.contains(p) && sa.contains(q) && p.0 == q.0 implies p == q by {
        assert(sa.to_multiset().count(p) > 0);
        assert(sa.to_multiset().count(q) > 0);
        assert(a.contains(p));
        assert(a.contains(q));
        let i = choose|i: int| 0 <= i < a.len() && a[i] == p;
        let j = choose|j: int| 0 <= j < a.len() && a[j] == q;
        if i < j {
            assert(a[i].0 != a[j].0);
        } else if j < i {
            assert(a[j].0 != a[i].0);
        }
    }
    lemma_sorted_unique(sa, sort_by_key(b));
    assert(sign_string(app_id, a) == sign_string(app_id, b));
}

/// Speech ends a pause: after a loud chunk, whatever came before, any run of
/// silent chunks shorter in total than the hangover is reported as speech,
/// chunk by chunk, and the utterance goes on.
pub proof fn law_vad_speech_restarts_hangover(o: VadFilterView, loud_bytes: nat, samples: Seq<nat>)
    requires
        total_samples(samples) < o.min_silence_samples,
    ensures
        vad_step(o, true, loud_bytes).1 == VadDecision::Speech,
        vad_step(o, true, loud_bytes).0.silence_samples == 0,
        silent_run(vad_step(o, true, loud_bytes).0, samples).0.had_speech,
        forall|i: int| 0 <= i < samples.len() ==> #[trigger] silent_run(vad_step(o, true, loud_bytes).0, samples).1[i]
            == VadDecision::Speech,
{
    let q = vad_step(o, true, loud_bytes).0;
    assert(q.had_speech && q.silence_samples == 0 && q.min_silence_samples == o.min_silence_samples);
    law_vad_hangover_run(q, samples);
}

/// A step of the upload filter with the detector on, in silence, with no
/// flush of trailing silence pending: only a keep-alive can go out.
pub open spec fn upload_idle(o: UploadFilterView, prev_speech: bool, decision: VadDecision, now_speech: bool) -> bool {
    &&& o.vad_enabled
    &&& decision == VadDecision::Silence
    &&& !(prev_speech && !now_speech)
    &&& o.flush_remaining == 0
}

/// Whatever the upload filter sends is stamped with its time, and nothing
/// else moves the stamp; in silence, audio goes out only once 5 s have passed
/// since the last send. Hence two keep-alives are at least 5 s apart.
pub proof fn law_upload_keepalive_pacing(
    o: UploadFilterView,
    len1: nat,
    prev1: bool,
    dec1: VadDecision,
    now1: bool,
    t1: u64,
    len2: nat,
    prev2: bool,
    dec2: VadDecision,
    now2: bool,
    t2: u64,
)
    requires
        o.vad_enabled,
    ensures
        upload_step(o, len1, prev1, dec1, now1, t1).1 != UploadSend::Nothing
            ==> upload_step(o, len1, prev1, dec1, now1, t1).0.last_send_ms == t1,
        upload_step(o, len1, prev1, dec1, now1, t1).1 == UploadSend::Nothing
            ==> upload_step(o, len1, prev1, dec1, now1, t1).0.last_send_ms == o.last_send_ms,
        upload_idle(o, prev1, dec1, now1) && upload_step(o, len1, prev1, dec1, now1, t1).1 != UploadSend::Nothing
            ==> t1 >= o.last_send_ms + 5000,
        ({
            let s1 = upload_step(o, len1, prev1, dec1, now1, t1).0;
            (upload_step(o, len1, prev1, dec1, now1, t1).1 != UploadSend::Nothing && upload_idle(s1, prev2, dec2, now2)
                && t1 <= t2 && upload_step(s1, len2, prev2, dec2, now2, t2).1 != UploadSend::Nothing) ==> t2 >= t1 + 5000
        }),
{
}

/// The hybrid stream after a run of silent chunks of the given sizes (in
/// samples), with the result of each.
pub open spec fn hybrid_silent_run(o: HybridStreamView, samples: Seq<nat>, sample_rate: int) -> (HybridStreamView, Seq<HybridDecode>)
    decreases samples.len(),
{
    if samples.len() == 0 {
        (o, Seq::empty())
    } else {
        let (p, ds) = hybrid_silent_run(o, samples.drop_last(), sample_rate);
        let (q, d) = hybrid_decode(p, false, samples.last(), sample_rate);
        (q, ds.push(d))
    }
}

proof fn lemma_hybrid_pause(o: HybridStreamView, samples: Seq<nat>, sample_rate: int)
    requires
        !o.refining,
        10 * (o.silence_samples + total_samples(samples)) < 12 * sample_rate,
    ensures
        !hybrid_silent_run(o, samples, sample_rate).0.refining,
        hybrid_silent_run(o, samples, sample_rate).0.silence_samples == o.silence_samples + total_samples(samples),
        hybrid_silent_run(o, samples, sample_rate).1.len() == samples.len(),
        forall|i: int| 0 <= i < samples.len() ==> #[trigger] hybrid_silent_run(o, samples, sample_rate).1[i]
            == HybridDecode::Streamed,
    decreases samples.len(),
{
    if samples.len() > 0 {
        let pre = samples.drop_last();
        assert(total_samples(samples) == total_samples(pre) + samples.last());
        lemma_hybrid_pause(o, pre, sample_rate);
        let (p, ds) = hybrid_silent_run(o, pre, sample_rate);
        let r = hybrid_silent_run(o, samples, sample_rate).1;
        assert(r == ds.push(HybridDecode::Streamed));
        assert forall|i: int| 0 <= i < samples.len() implies #[trigger] r[i] == HybridDecode::Streamed by {
            if i < pre.len() {
                assert(r[i] == ds[i]);
            }
        }
    }
}

/// Speech ends a pause of the hybrid recognizer: after a loud chunk, a run of
/// silent chunks shorter in total than 1.2 s starts no refinement; every chunk
/// is streamed, so a segment is refined only after 1.2 s of silence following
/// its last speech.
pub proof fn law_hybrid_speech_restarts_pause(o: HybridStreamView, loud: nat, samples: Seq<nat>, sample_rate: int)
    requires
        !o.refining,
        10 * total_samples(samples) < 12 * sample_rate,
    ensures
        hybrid_decode(o, true, loud, sample_rate).0.silence_samples == 0,
        !hybrid_silent_run(hybrid_decode(o, true, loud, sample_rate).0, samples, sample_rate).0.refining,
        forall|i: int| 0 <= i < samples.len() ==> #[trigger] hybrid_silent_run(
            hybrid_decode(o, true, loud, sample_rate).0,
            samples,
            sample_rate,
        ).1[i] == HybridDecode::Streamed,
{
    let q = hybrid_decode(o, true, loud, sample_rate).0;
    assert(q.silence_samples == 0);
    assert(!q.refining);
    lemma_hybrid_pause(q, samples, sample_rate);
}

/// The chunks of a run, one after another.
pub open spec fn concat_chunks(chunks: Seq<Seq<u8>>) -> Seq<u8>
    decreases chunks.len(),
{
    if chunks.len() == 0 {
        Seq::empty()
    } else {
        concat_chunks(chunks.drop_last()) + chunks.last()
    }
}

/// The samples of a run of chunks.
pub open spec fn chunk_samples(chunks: Seq<Seq<u8>>) -> nat
    decreases chunks.len(),
{
    if chunks.len() == 0 {
        0
    } else {
        chunk_samples(chunks.drop_last()) + chunks.last().len() / 2
    }
}

/// The test recorder after a run of silent chunks.
pub open spec fn segment_silent_run(o: SegmentRecorderView, chunks: Seq<Seq<u8>>) -> SegmentRecorderView
    decreases chunks.len(),
{
    if chunks.len() == 0 {
        o
    } else {
        segment_step(segment_silent_run(o, chunks.drop_last()), chunks.last(), false)
    }
}

proof fn lemma_segment_pause(o: SegmentRecorderView, chunks: Seq<Seq<u8>>)
    requires
        o.speech_buffer.len() > 0,
        o.silence_samples + chunk_samples(chunks) < SEGMENT_SILENCE_SAMPLES,
    ensures
        segment_silent_run(o, chunks) == (SegmentRecorderView {
            raw: o.raw + concat_chunks(chunks),
            speech_buffer: o.speech_buffer + concat_chunks(chunks),
            silence_samples: (o.silence_samples + chunk_samples(chunks)) as usize,
            ..o
        }),
    decreases chunks.len(),
{
    if chunks.len() == 0 {
        assert(o.raw + concat_chunks(chunks) =~= o.raw);
        assert(o.speech_buffer + concat_chunks(chunks) =~= o.speech_buffer);
    } else {
        let pre = chunks.drop_last();
        lemma_segment_pause(o, pre);
        assert(o.raw + concat_chunks(pre) + chunks.last() =~= o.raw + concat_chunks(chunks));
        assert(o.speech_buffer + concat_chunks(pre) + chunks.last() =~= o.speech_buffer + concat_chunks(chunks));
    }
}

/// Speech ends a pause of the test recorder: after a chunk of speech, the
/// silent chunks that follow it are kept with the segment, and no segment is
/// closed, until 0.3 s of silence have passed.
pub proof fn law_segment_keeps_trailing_silence(o: SegmentRecorderView, speech: Seq<u8>, chunks: Seq<Seq<u8>>)
    requires
        speech.len() > 0,
        chunk_samples(chunks) < SEGMENT_SILENCE_SAMPLES,
    ensures
        segment_step(o, speech, true).silence_samples == 0,
        segment_silent_run(segment_step(o, speech, true), chunks).speech_buffer
            == o.speech_buffer + speech + concat_chunks(chunks),
        segment_silent_run(segment_step(o, speech, true), chunks).output == o.output,
        segment_silent_run(segment_step(o, speech, true), chunks).had_speech,
{
    let q = segment_step(o, speech, true);
    assert(q.speech_buffer == o.speech_buffer + speech);
    assert(q.speech_buffer.len() > 0);
    lemma_segment_pause(q, chunks);
}

/// Whether a service runs after its change is applied.
pub open spec fn runs_after(was_running: bool, change: ServiceChange) -> bool {
    match change {
        ServiceChange::Start => true,
        ServiceChange::Stop => false,
        ServiceChange::Keep => was_running,
    }
}

/// Saving the settings makes the services follow them: the hotkey runs exactly
/// when it is switched on, and the trigger listener runs exactly when it is
/// switched on and either ran already or has a recognizer to use. Switching a
/// running service off stops it, and a setting that is not changed touches
/// nothing.
pub proof fn law_services_follow_settings(was: bool, now: bool, has_recognizer: bool)
    ensures
        runs_after(was, hotkey_change(was, now)) == now,
        runs_after(was, trigger_change(was, now, has_recognizer)) == (now && (was || has_recognizer)),
        was && !now ==> hotkey_change(was, now) == ServiceChange::Stop
            && trigger_change(was, now, has_recognizer) == ServiceChange::Stop,
        was == now ==> hotkey_change(was, now) == ServiceChange::Keep
            && trigger_change(was, now, has_recognizer) == ServiceChange::Keep,
{
}

} // verus!

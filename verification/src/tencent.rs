//! Request signing for the cloud recognizer: the parameters are sorted by
//! name, signed with HMAC-SHA1 and Base64, and assembled into the URL of the
//! streaming endpoint.
use vstd::prelude::*;
use crate::signing::{base64_encode, base64_standard, hmac_sha1, spec_hmac_sha1, url_encode, url_encode_str};
use crate::text::{append_chars, append_str, chars_of, decimal, join_sep, join_sep_exec, string_from_chars, u64_to_decimal};

verus! {

/// `a` sorts before `b`: byte order of UTF-8 strings, which is the order of their code points.
pub open spec fn key_lt(a: Seq<char>, b: Seq<char>) -> bool
    decreases a.len(),
{
    if a.len() == 0 {
        b.len() > 0
    } else if b.len() == 0 {
        false
    } else if a[0] != b[0] {
        (a[0] as u32) < (b[0] as u32)
    } else {
        key_lt(a.drop_first(), b.drop_first())
    }
}

/// A parameter as a pair of plain strings.
pub type ParamView = (Seq<char>, Seq<char>);

/// `x` inserted before the first pair whose name sorts after its own.
pub open spec fn insert_by_key(s: Seq<ParamView>, x: ParamView) -> Seq<ParamView>
    decreases s.len(),
{
    if s.len() == 0 {
        seq![x]
    } else if key_lt(x.0, s[0].0) {
        seq![x] + s
    } else {
        seq![s[0]] + insert_by_key(s.drop_first(), x)
    }
}

/// The pairs sorted by name; pairs with equal names keep their order (a stable sort).
pub open spec fn sort_by_key(s: Seq<ParamView>) -> Seq<ParamView>
    decreases s.len(),
{
    if s.len() == 0 {
        s
    } else {
        insert_by_key(sort_by_key(s.drop_last()), s.last())
    }
}

/// The parameters as plain strings.
pub open spec fn param_views(params: Seq<(&str, &str)>) -> Seq<ParamView> {
    params.map_values(|p: (&str, &str)| (p.0@, p.1@))
}

proof fn lemma_key_lt_skip(a: Seq<char>, b: Seq<char>, i: int)
    requires
        0 <= i <= a.len(),
        i <= b.len(),
        forall|k: int| 0 <= k < i ==> a[k] == b[k],
    ensures
        key_lt(a, b) == key_lt(a.skip(i), b.skip(i)),
    decreases i,
{
    if i > 0 {
        assert(a.drop_first().skip(i - 1) =~= a.skip(i));
        assert(b.drop_first().skip(i - 1) =~= b.skip(i));
        lemma_key_lt_skip(a.drop_first(), b.drop_first(), i - 1);
    } else {
        assert(a.skip(0) =~= a);
        assert(b.skip(0) =~= b);
    }
}

pub(crate) fn key_lt_exec(a: &[char], b: &[char]) -> (r: bool)
    ensures
        r == key_lt(a@, b@),
{
    let mut i: usize = 0;
    while i < a.len() && i < b.len() && a[i] == b[i]
        invariant
            i <= a@.len(),
            i <= b@.len(),
            forall|k: int| 0 <= k < i ==> a@[k] == b@[k],
        decreases a@.len() - i,
    {
        i = i + 1;
    }
    proof {
        lemma_key_lt_skip(a@, b@, i as int);
        if i < a@.len() && i < b@.len() {
            assert(a@.skip(i as int)[0] == a@[i as int]);
            assert(b@.skip(i as int)[0] == b@[i as int]);
        }
    }
    if i == a.len() {
        i < b.len()
    } else if i == b.len() {
        false
    } else {
        (a[i] as u32) < (b[i] as u32)
    }
}

proof fn lemma_insert_at(s: Seq<ParamView>, x: ParamView, j: int)
    requires
        0 <= j <= s.len(),
        forall|k: int| 0 <= k < j ==> !key_lt(x.0, #[trigger] s[k].0),
        j < s.len() ==> key_lt(x.0, s[j].0),
    ensures
        insert_by_key(s, x) == s.take(j) + seq![x] + s.skip(j),
    decreases j,
{
    if j == 0 {
        if s.len() == 0 {
            assert(s.take(0) + seq![x] + s.skip(0) =~= seq![x]);
        } else {
            assert(s.take(0) + seq![x] + s.skip(0) =~= seq![x] + s);
        }
    } else {
        assert(!key_lt(x.0, s[0].0));
        assert forall|k: int| 0 <= k < j - 1 implies !key_lt(x.0, #[trigger] s.drop_first()[k].0) by {
            assert(s.drop_first()[k] == s[k + 1]);
        }
        if j - 1 < s.drop_first().len() {
            assert(s.drop_first()[j - 1] == s[j]);
        }
        lemma_insert_at(s.drop_first(), x, j - 1);
        assert(seq![s[0]] + (s.drop_first().take(j - 1) + seq![x] + s.drop_first().skip(j - 1))
            =~= s.take(j) + seq![x] + s.skip(j));
    }
}

/// The parameters sorted by name (a stable sort).
pub fn sort_params<'a>(params: &[(&'a str, &'a str)]) -> (r: Vec<(&'a str, &'a str)>)
    ensures
        param_views(r@) == sort_by_key(param_views(params@)),
{
    let ghost pv = param_views(params@);
    let mut r: Vec<(&'a str, &'a str)> = Vec::new();
    let mut keys: Vec<Vec<char>> = Vec::new();
    let mut i: usize = 0;
    while i < params.len()
        invariant
            i <= params@.len(),
            pv == param_views(params@),
            param_views(r@) == sort_by_key(pv.take(i as int)),
            keys@.len() == r@.len(),
            forall|k: int| 0 <= k < keys@.len() ==> (#[trigger] keys@[k])@ == r@[k].0@,
        decreases params@.len() - i,
    {
        let x = params[i];
        let xk = chars_of(x.0);
        let mut j: usize = 0;
        while j < r.len() && !key_lt_exec(xk.as_slice(), keys[j].as_slice())
            invariant
                j <= r@.len(),
                keys@.len() == r@.len(),
                forall|k: int| 0 <= k < keys@.len() ==> (#[trigger] keys@[k])@ == r@[k].0@,
                xk@ == x.0@,
                forall|k: int| 0 <= k < j ==> !key_lt(x.0@, #[trigger] param_views(r@)[k].0),
            decreases r@.len() - j,
        {
            j = j + 1;
        }
        proof {
            let s = param_views(r@);
            assert(pv.take(i + 1).drop_last() =~= pv.take(i as int));
            assert(pv.take(i + 1).last() == (x.0@, x.1@));
            lemma_insert_at(s, (x.0@, x.1@), j as int);
        }
        let ghost r0 = r@;
        let ghost k0 = keys@;
        r.insert(j, x);
        keys.insert(j, xk);
        proof {
            assert(param_views(r@) =~= param_views(r0).take(j as int) + seq![(x.0@, x.1@)]
                + param_views(r0).skip(j as int));
            assert forall|k: int| 0 <= k < keys@.len() implies (#[trigger] keys@[k])@ == r@[k].0@ by {
                if k < j {
                    assert(keys@[k] == k0[k]);
                } else if k > j {
                    assert(keys@[k] == k0[k - 1]);
                }
            }
        }
        i = i + 1;
    }
    proof {
        assert(pv.take(params@.len() as int) =~= pv);
    }
    r
}

} // verus!

verus! {

/// `name=value`, joined as the query string takes them.
pub open spec fn raw_pairs(ps: Seq<ParamView>) -> Seq<Seq<char>> {
    ps.map_values(|p: ParamView| p.0 + seq!['='] + p.1)
}

/// `name=value` with both percent-encoded, as the URL carries them.
pub open spec fn encoded_pairs(ps: Seq<ParamView>) -> Seq<Seq<char>> {
    ps.map_values(|p: ParamView| url_encode(p.0) + seq!['='] + url_encode(p.1))
}

/// The string that is signed: host, path with the app id, `?`, then the
/// sorted parameters as `name=value` joined by `&`, without percent-encoding.
pub open spec fn sign_string(app_id: Seq<char>, ps: Seq<ParamView>) -> Seq<char> {
    "asr.cloud.tencent.com/asr/v2/"@ + app_id + seq!['?'] + join_sep(raw_pairs(sort_by_key(ps)), seq!['&'])
}

/// The request signature: Base64 of the HMAC-SHA1 of the sign string under the secret key.
pub open spec fn signature_of(secret_key: Seq<char>, app_id: Seq<char>, ps: Seq<ParamView>) -> Seq<char> {
    base64_standard(spec_hmac_sha1(secret_key, sign_string(app_id, ps)))
}

fn pair_items(ps: &Vec<(&str, &str)>, encode: bool) -> (r: Vec<Vec<char>>)
    ensures
        r@.map_values(|l: Vec<char>| l@) == if encode {
            encoded_pairs(param_views(ps@))
        } else {
            raw_pairs(param_views(ps@))
        },
{
    let ghost target = if encode {
        encoded_pairs(param_views(ps@))
    } else {
        raw_pairs(param_views(ps@))
    };
    let mut r: Vec<Vec<char>> = Vec::new();
    let mut i: usize = 0;
    while i < ps.len()
        invariant
            i <= ps@.len(),
            target == (if encode { encoded_pairs(param_views(ps@)) } else { raw_pairs(param_views(ps@)) }),
            r@.map_values(|l: Vec<char>| l@) == target.take(i as int),
        decreases ps@.len() - i,
    {
        let (k, v) = ps[i];
        let mut item: Vec<char> = Vec::new();
        if encode {
            append_str(&mut item, url_encode_str(k).as_str());
        } else {
            append_str(&mut item, k);
        }
        item.push('=');
        if encode {
            append_str(&mut item, url_encode_str(v).as_str());
        } else {
            append_str(&mut item, v);
        }
        proof {
            assert(ps@[i as int] == (k, v));
            if encode {
                assert(item@ =~= url_encode(k@) + seq!['='] + url_encode(v@));
            } else {
                assert(item@ =~= k@ + seq!['='] + v@);
            }
            assert(item@ == target[i as int]);
        }
        let ghost r0 = r@;
        r.push(item);
        proof {
            assert(target.take(i + 1) =~= target.take(i as int).push(target[i as int]));
            assert(r@.map_values(|l: Vec<char>| l@) =~= r0.map_values(|l: Vec<char>| l@).push(item@));
        }
        i = i + 1;
    }
    proof {
        assert(target.take(ps@.len() as int) =~= target);
    }
    r
}

/// Generate the V1 HMAC-SHA1 request signature.
///
/// The parameters are sorted by name (the app id is not among them: it is in
/// the path), the sign string is built from them without percent-encoding,
/// signed with `secret_key` and Base64-encoded.
pub fn generate_signature(secret_key: &str, app_id: &str, params: &[(&str, &str)]) -> (r: String)
    ensures
        r@ == signature_of(secret_key@, app_id@, param_views(params@)),
        r@.len() == 28,
{
    let sorted = sort_params(params);
    let items = pair_items(&sorted, false);
    let mut s: Vec<char> = Vec::new();
    append_str(&mut s, "asr.cloud.tencent.com/asr/v2/");
    append_str(&mut s, app_id);
    s.push('?');
    let mut amp: Vec<char> = Vec::new();
    amp.push('&');
    proof {
        assert(amp@ =~= seq!['&']);
    }
    let q = join_sep_exec(items.as_slice(), amp.as_slice());
    append_chars(&mut s, q.as_slice());
    let sign_str = string_from_chars(s.as_slice());
    proof {
        assert(sign_str@ =~= sign_string(app_id@, param_views(params@)));
    }
    let mac = hmac_sha1(secret_key, sign_str.as_str());
    proof {
        crate::laws::law_base64_length(mac@);
    }
    base64_encode(mac.as_slice())
}

} // verus!

verus! {

/// The request parameters: credentials id, time stamp, expiry one day later,
/// nonce (the time stamp), engine model, voice id, audio format and VAD switch.
pub open spec fn asr_params(
    secret_id: Seq<char>,
    engine_model: Seq<char>,
    timestamp: u64,
    audio_format: u8,
    need_vad: bool,
    voice_id: Seq<char>,
) -> Seq<ParamView> {
    seq![
        ("secretid"@, secret_id),
        ("timestamp"@, decimal(timestamp as nat)),
        ("expired"@, decimal((timestamp + 86400) as nat)),
        ("nonce"@, decimal(timestamp as nat)),
        ("engine_model_type"@, engine_model),
        ("voice_id"@, voice_id),
        ("voice_format"@, decimal(audio_format as nat)),
        ("needvad"@, if need_vad { "1"@ } else { "0"@ }),
    ]
}

/// The signed URL: endpoint with the app id, the sorted percent-encoded
/// parameters, then the percent-encoded signature.
pub open spec fn asr_url(app_id: Seq<char>, ps: Seq<ParamView>, signature: Seq<char>) -> Seq<char> {
    "https://asr.cloud.tencent.com/asr/v2/"@ + app_id + seq!['?'] + join_sep(
        encoded_pairs(sort_by_key(ps)),
        seq!['&'],
    ) + "&signature="@ + url_encode(signature)
}

/// Build the full recognizer URL with its V1 HMAC-SHA1 signature, for the
/// given clock reading (seconds since the epoch) and voice id.
pub fn build_asr_url_at(
    app_id: &str,
    secret_id: &str,
    secret_key: &str,
    engine_model: &str,
    audio_format: u8,
    need_vad: bool,
    timestamp: u64,
    voice_id: &str,
) -> (r: String)
    requires
        timestamp <= u64::MAX - 86400,
    ensures
        ({
            let ps = asr_params(secret_id@, engine_model@, timestamp, audio_format, need_vad, voice_id@);
            r@ == asr_url(app_id@, ps, signature_of(secret_key@, app_id@, ps))
        }),
{
    let timestamp_str = u64_to_decimal(timestamp);
    let expired_str = u64_to_decimal(timestamp + 86400);
    let nonce_str = u64_to_decimal(timestamp);
    let format_str = u64_to_decimal(audio_format as u64);
    let vad_str: &str = if need_vad { "1" } else { "0" };
    let mut params: Vec<(&str, &str)> = Vec::new();
    params.push(("secretid", secret_id));
    params.push(("timestamp", timestamp_str.as_str()));
    params.push(("expired", expired_str.as_str()));
    params.push(("nonce", nonce_str.as_str()));
    params.push(("engine_model_type", engine_model));
    params.push(("voice_id", voice_id));
    params.push(("voice_format", format_str.as_str()));
    params.push(("needvad", vad_str));
    let ghost ps = asr_params(secret_id@, engine_model@, timestamp, audio_format, need_vad, voice_id@);
    proof {
        assert(param_views(params@) =~= ps);
    }
    let signature = generate_signature(secret_key, app_id, params.as_slice());
    let sorted = sort_params(params.as_slice());
    let items = pair_items(&sorted, true);
    let mut amp: Vec<char> = Vec::new();
    amp.push('&');
    proof {
        assert(amp@ =~= seq!['&']);
    }
    let q = join_sep_exec(items.as_slice(), amp.as_slice());
    let mut s: Vec<char> = Vec::new();
    append_str(&mut s, "https://asr.cloud.tencent.com/asr/v2/");
    append_str(&mut s, app_id);
    s.push('?');
    append_chars(&mut s, q.as_slice());
    append_str(&mut s, "&signature=");
    append_str(&mut s, url_encode_str(signature.as_str()).as_str());
    let r = string_from_chars(s.as_slice());
    proof {
        assert(r@ =~= asr_url(app_id@, ps, signature_of(secret_key@, app_id@, ps)));
    }
    r
}

/// A fresh random (version 4) UUID in its hyphenated form, from the `uuid` crate.
/// The crate documents the hyphenated form as 36 characters.
#[verifier::external_body]
pub(crate) fn new_voice_id() -> (r: String)
    ensures
        r@.len() == 36,
{
    uuid::Uuid::new_v4().to_string()
}

/// Build the full recognizer URL with the current time and a fresh voice id.
/// The clock is read in milliseconds, so its reading in seconds always leaves
/// room for the expiry time a day later.
pub fn build_asr_url(
    app_id: &str,
    secret_id: &str,
    secret_key: &str,
    engine_model: &str,
    audio_format: u8,
    need_vad: bool,
) -> (r: String)
    ensures
        exists|timestamp: u64, voice_id: Seq<char>|
            #![trigger asr_params(secret_id@, engine_model@, timestamp, audio_format, need_vad, voice_id)]
            voice_id.len() == 36 && r@ == asr_url(
                app_id@,
                asr_params(secret_id@, engine_model@, timestamp, audio_format, need_vad, voice_id),
                signature_of(
                    secret_key@,
                    app_id@,
                    asr_params(secret_id@, engine_model@, timestamp, audio_format, need_vad, voice_id),
                ),
            ),
{
    let timestamp = crate::osc::clock_now_ms() / 1000;
    assert(timestamp <= u64::MAX - 86400);
    let voice_id = new_voice_id();
    let r = build_asr_url_at(
        app_id,
        secret_id,
        secret_key,
        engine_model,
        audio_format,
        need_vad,
        timestamp,
        voice_id.as_str(),
    );
    proof {
        let ps = asr_params(secret_id@, engine_model@, timestamp, audio_format, need_vad, voice_id@);
        assert(voice_id@.len() == 36);
    }
    r
}

} // verus!

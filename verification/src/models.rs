//! Speech-model settings of the speech server: defaults, the files each
//! backend needs, the registry of downloadable models and the settings a
//! model choice writes, and the download plan.
use vstd::prelude::*;
use crate::text::{append_str, str_eq, str_is_empty, string_from_chars};

verus! {

/// Server binding configuration.
#[derive(Clone, Debug)]
pub struct ServerConfig {
    pub host: String,
    pub port: u16,
    pub max_connections: usize,
}

pub fn default_host() -> (r: String)
    ensures
        r@ == "0.0.0.0"@,
{
    String::from_str("0.0.0.0")
}

pub fn default_port() -> (r: u16)
    ensures
        r == 8765,
{
    8765
}

pub fn default_max_connections() -> (r: usize)
    ensures
        r == 1,
{
    1
}

pub fn default_num_threads() -> (r: i32)
    ensures
        r == 6,
{
    6
}

pub fn default_sample_rate() -> (r: i32)
    ensures
        r == 16000,
{
    16000
}

pub fn default_backend() -> (r: String)
    ensures
        r@ == "sherpa-onnx"@,
{
    String::from_str("sherpa-onnx")
}

pub fn default_streaming_model() -> (r: String)
    ensures
        r@ == "transducer"@,
{
    String::from_str("transducer")
}

pub fn default_ctc_model_dir() -> (r: String)
    ensures
        r@ == "./models/sherpa-onnx-streaming-zipformer-small-ctc-zh-int8-2025-04-01"@,
{
    String::from_str("./models/sherpa-onnx-streaming-zipformer-small-ctc-zh-int8-2025-04-01")
}

pub fn default_sv_model_dir() -> (r: String)
    ensures
        r@ == "./models/sherpa-onnx-sense-voice-zh-en-ja-ko-yue-int8-2024-07-17"@,
{
    String::from_str("./models/sherpa-onnx-sense-voice-zh-en-ja-ko-yue-int8-2024-07-17")
}

pub fn default_sv_model() -> (r: String)
    ensures
        r@ == "model.int8.onnx"@,
{
    String::from_str("model.int8.onnx")
}

pub fn default_sv_tokens() -> (r: String)
    ensures
        r@ == "tokens.txt"@,
{
    String::from_str("tokens.txt")
}

pub fn default_language() -> (r: String)
    ensures
        r@ == "zh"@,
{
    String::from_str("zh")
}

pub fn default_true() -> (r: bool)
    ensures
        r,
{
    true
}

impl Default for ServerConfig {
    fn default() -> (c: Self)
        ensures
            c.host@ == "0.0.0.0"@,
            c.port == 8765,
            c.max_connections == 1,
    {
        ServerConfig { host: default_host(), port: default_port(), max_connections: default_max_connections() }
    }
}

/// ASR model configuration (directories as written in the file).
#[derive(Clone, Debug)]
pub struct AsrConfig {
    pub model_dir: String,
    pub model_name: String,
    pub encoder: String,
    pub decoder: String,
    pub joiner: String,
    pub tokens: String,
    pub num_threads: i32,
    pub sample_rate: i32,
    /// ONNX execution provider (`cpu`, `cuda`).
    pub provider: Option<String>,
    /// `sherpa-onnx` (transducer) or `hybrid` (streaming model plus SenseVoice).
    pub backend: String,
    /// `transducer` or `zipformer-small-ctc`.
    pub streaming_model: String,
    pub ctc_model_dir: String,
    pub sv_model_dir: String,
    pub sv_model: String,
    pub sv_tokens: String,
    pub language: String,
}

/// Punctuation restoration model configuration.
#[derive(Clone, Debug)]
pub struct PunctuationConfig {
    pub enabled: bool,
    pub model_dir: String,
    pub model_name: String,
    pub model_file: String,
}

impl Default for PunctuationConfig {
    fn default() -> (c: Self)
        ensures
            !c.enabled,
            c.model_dir@ == "./models"@,
            c.model_name@ == Seq::<char>::empty(),
            c.model_file@ == Seq::<char>::empty(),
    {
        PunctuationConfig {
            enabled: false,
            model_dir: String::from_str("./models"),
            model_name: String::new(),
            model_file: String::new(),
        }
    }
}

/// Which directory a model file lives in.
#[derive(Debug, PartialEq, Eq, Structural)]
pub enum ModelDirKind {
    /// The ASR model directory (`model_dir/model_name`).
    Asr,
    /// The CTC streaming model directory.
    Ctc,
    /// The SenseVoice model directory.
    SenseVoice,
}

/// A model file to look for, and how it is listed when missing.
pub struct RequiredFile {
    pub dir: ModelDirKind,
    pub file: String,
    pub label: String,
}

/// A file as plain values.
pub struct RequiredFileView {
    pub dir: ModelDirKind,
    pub file: Seq<char>,
    pub label: Seq<char>,
}

impl View for RequiredFile {
    type V = RequiredFileView;

    open spec fn view(&self) -> RequiredFileView {
        RequiredFileView { dir: self.dir, file: self.file@, label: self.label@ }
    }
}

/// The transducer files (encoder, decoder, joiner, tokens) that are named.
pub open spec fn transducer_files(asr: AsrConfig) -> Seq<RequiredFileView> {
    seq![asr.encoder@, asr.decoder@, asr.joiner@, asr.tokens@].filter(|f: Seq<char>| f.len() > 0).map_values(
        |f: Seq<char>| RequiredFileView { dir: ModelDirKind::Asr, file: f, label: f },
    )
}

/// The files the configured backend needs: the hybrid backend needs its
/// streaming model (CTC model and tokens, or the transducer files) and the
/// SenseVoice model and tokens; the standard backend needs the transducer files.
pub open spec fn required_files(asr: AsrConfig) -> Seq<RequiredFileView> {
    if asr.backend@ == "hybrid"@ {
        let streaming = if asr.streaming_model@ == "zipformer-small-ctc"@ {
            seq![
                RequiredFileView { dir: ModelDirKind::Ctc, file: asr.encoder@, label: "ctc/"@ + asr.encoder@ },
                RequiredFileView { dir: ModelDirKind::Ctc, file: "tokens.txt"@, label: "ctc/tokens.txt"@ },
            ]
        } else {
            transducer_files(asr)
        };
        streaming + seq![
            RequiredFileView { dir: ModelDirKind::SenseVoice, file: asr.sv_model@, label: "sv/"@ + asr.sv_model@ },
            RequiredFileView { dir: ModelDirKind::SenseVoice, file: asr.sv_tokens@, label: "sv/"@ + asr.sv_tokens@ },
        ]
    } else {
        transducer_files(asr)
    }
}

fn file_entry(dir: ModelDirKind, file: &str, prefix: &str) -> (r: RequiredFile)
    ensures
        r@ == (RequiredFileView { dir, file: file@, label: prefix@ + file@ }),
{
    let mut l: Vec<char> = Vec::new();
    append_str(&mut l, prefix);
    append_str(&mut l, file);
    let label = string_from_chars(l.as_slice());
    RequiredFile { dir, file: file.to_owned(), label }
}

fn push_transducer_files(out: &mut Vec<RequiredFile>, asr: &AsrConfig)
    ensures
        final(out)@.map_values(|f: RequiredFile| f@) == old(out)@.map_values(|f: RequiredFile| f@)
            + transducer_files(*asr),
{
    let ghost names = seq![asr.encoder@, asr.decoder@, asr.joiner@, asr.tokens@];
    let ghost o0 = out@.map_values(|f: RequiredFile| f@);
    let mut i: usize = 0;
    while i < 4
        invariant
            i <= 4,
            names == seq![asr.encoder@, asr.decoder@, asr.joiner@, asr.tokens@],
            out@.map_values(|f: RequiredFile| f@) == o0 + names.take(i as int).filter(|f: Seq<char>| f.len() > 0).map_values(
                |f: Seq<char>| RequiredFileView { dir: ModelDirKind::Asr, file: f, label: f },
            ),
        decreases 4 - i,
    {
        let name: &String = if i == 0 {
            &asr.encoder
        } else if i == 1 {
            &asr.decoder
        } else if i == 2 {
            &asr.joiner
        } else {
            &asr.tokens
        };
        proof {
            reveal_with_fuel(Seq::<_>::filter, 1);
            assert(names.take(i + 1).drop_last() =~= names.take(i as int));
            assert(names.take(i + 1).last() == name@);
        }
        let ghost before = out@.map_values(|f: RequiredFile| f@);
        if !str_is_empty(name.as_str()) {
            let e = file_entry(ModelDirKind::Asr, name.as_str(), "");
            out.push(e);
            proof {
                assert(""@ + name@ =~= name@) by {
                    reveal_strlit("");
                }
                assert(out@.map_values(|f: RequiredFile| f@) =~= before.push(e@));
            }
        }
        i = i + 1;
    }
    proof {
        assert(names.take(4) =~= names);
    }
}

/// The files the configured backend needs, in the order they are checked.
pub fn required_model_files(asr: &AsrConfig) -> (r: Vec<RequiredFile>)
    ensures
        r@.map_values(|f: RequiredFile| f@) == required_files(*asr),
{
    let mut out: Vec<RequiredFile> = Vec::new();
    proof {
        assert(out@.map_values(|f: RequiredFile| f@) =~= Seq::<RequiredFileView>::empty());
    }
    if str_eq(asr.backend.as_str(), "hybrid") {
        if str_eq(asr.streaming_model.as_str(), "zipformer-small-ctc") {
            out.push(file_entry(ModelDirKind::Ctc, asr.encoder.as_str(), "ctc/"));
            let t = file_entry(ModelDirKind::Ctc, "tokens.txt", "ctc/");
            proof {
                assert("ctc/"@ + "tokens.txt"@ =~= "ctc/tokens.txt"@) by {
                    reveal_strlit("ctc/");
                    reveal_strlit("tokens.txt");
                    reveal_strlit("ctc/tokens.txt");
                }
            }
            out.push(t);
        } else {
            push_transducer_files(&mut out, asr);
        }
        out.push(file_entry(ModelDirKind::SenseVoice, asr.sv_model.as_str(), "sv/"));
        out.push(file_entry(ModelDirKind::SenseVoice, asr.sv_tokens.as_str(), "sv/"));
        proof {
            assert(out@.map_values(|f: RequiredFile| f@) =~= required_files(*asr));
        }
    } else {
        push_transducer_files(&mut out, asr);
        proof {
            assert(out@.map_values(|f: RequiredFile| f@) =~= required_files(*asr));
        }
    }
    out
}

/// Model status reported to the UI.
pub struct SttModelStatus {
    pub exists: bool,
    pub model_name: String,
    pub missing_files: Vec<String>,
    pub model_dir: String,
}

/// The labels of the files found missing, in order.
pub open spec fn missing_labels(files: Seq<RequiredFileView>, present: Seq<bool>) -> Seq<Seq<char>>
    decreases files.len(),
{
    if files.len() == 0 {
        Seq::empty()
    } else {
        let rest = missing_labels(files.drop_last(), present.drop_last());
        if present.last() {
            rest
        } else {
            rest.push(files.last().label)
        }
    }
}

/// The model status from the check of each required file (`present[i]` for `files[i]`).
pub fn model_status(files: &Vec<RequiredFile>, present: &[bool], model_name: String, model_dir: String) -> (s: SttModelStatus)
    requires
        present@.len() == files@.len(),
    ensures
        s.missing_files@.map_values(|m: String| m@) == missing_labels(files@.map_values(|f: RequiredFile| f@), present@),
        s.exists == (s.missing_files@.len() == 0),
        s.model_name@ == model_name@,
        s.model_dir@ == model_dir@,
{
    let ghost fv = files@.map_values(|f: RequiredFile| f@);
    let mut missing: Vec<String> = Vec::new();
    let mut i: usize = 0;
    while i < files.len()
        invariant
            i <= files@.len(),
            present@.len() == files@.len(),
            fv == files@.map_values(|f: RequiredFile| f@),
            missing@.map_values(|m: String| m@) == missing_labels(fv.take(i as int), present@.take(i as int)),
        decreases files@.len() - i,
    {
        proof {
            assert(fv.take(i + 1).drop_last() =~= fv.take(i as int));
            assert(present@.take(i + 1).drop_last() =~= present@.take(i as int));
            assert(present@.take(i + 1).last() == present@[i as int]);
            assert(fv.take(i + 1).last() == files@[i as int]@);
        }
        if !present[i] {
            let ghost m0 = missing@;
            missing.push(files[i].label.clone());
            proof {
                assert(missing@.map_values(|m: String| m@) =~= m0.map_values(|m: String| m@).push(files@[i as int].label@));
            }
        }
        i = i + 1;
    }
    proof {
        assert(fv.take(i as int) =~= fv);
        assert(present@.take(i as int) =~= present@);
    }
    let exists = missing.len() == 0;
    SttModelStatus { exists, model_name, missing_files: missing, model_dir }
}

} // verus!

verus! {

/// Transducer file names of a downloadable model.
#[derive(Clone, Debug)]
pub struct ModelFiles {
    pub encoder: String,
    pub decoder: String,
    pub joiner: String,
    pub tokens: String,
}

/// The SenseVoice model that a hybrid model comes with.
#[derive(Clone, Debug)]
pub struct SvModelInfo {
    pub name: String,
    pub display_name: String,
    pub size_bytes: u64,
    pub model_file: String,
    pub tokens_file: String,
}

/// A speech model available for download.
#[derive(Clone, Debug)]
pub struct AvailableModel {
    pub name: String,
    pub display_name: String,
    pub size_bytes: u64,
    pub files: ModelFiles,
    /// `sherpa-onnx` (transducer) or `hybrid` (CTC plus SenseVoice).
    pub backend: String,
    /// For hybrid models: the SenseVoice model.
    pub sv_model: Option<SvModelInfo>,
}

/// Download progress reported to the UI.
pub struct DownloadProgress {
    pub phase: String,
    pub current: u64,
    pub total: u64,
}

/// A model entry as plain values: name, display name, backend, transducer
/// files, size, and for hybrid models the SenseVoice model's name, display
/// name, size, model file and tokens file.
pub struct ModelView {
    pub name: Seq<char>,
    pub display_name: Seq<char>,
    pub backend: Seq<char>,
    pub encoder: Seq<char>,
    pub decoder: Seq<char>,
    pub joiner: Seq<char>,
    pub tokens: Seq<char>,
    pub size_bytes: u64,
    pub sv: Option<(Seq<char>, Seq<char>, u64, Seq<char>, Seq<char>)>,
}

/// The view of an [`AvailableModel`].
pub open spec fn model_view(m: AvailableModel) -> ModelView {
    ModelView {
        name: m.name@,
        display_name: m.display_name@,
        backend: m.backend@,
        encoder: m.files.encoder@,
        decoder: m.files.decoder@,
        joiner: m.files.joiner@,
        tokens: m.files.tokens@,
        size_bytes: m.size_bytes,
        sv: match m.sv_model {
            Some(sv) => Some((sv.name@, sv.display_name@, sv.size_bytes, sv.model_file@, sv.tokens_file@)),
            None => None,
        },
    }
}

/// The models offered for download.
pub open spec fn supported_models() -> Seq<ModelView> {
    seq![
        ModelView {
            name: "sherpa-onnx-streaming-zipformer-zh-14M-2023-02-23"@,
            display_name: "\u{4e2d}\u{6587} Zipformer 14M (\u{6807}\u{51c6}) \u{2014} ~74 MB"@,
            backend: "sherpa-onnx"@,
            encoder: "encoder-epoch-99-avg-1.onnx"@,
            decoder: "decoder-epoch-99-avg-1.onnx"@,
            joiner: "joiner-epoch-99-avg-1.onnx"@,
            tokens: "tokens.txt"@,
            size_bytes: 74_004_050,
            sv: None,
        },
        ModelView {
            name: "sherpa-onnx-streaming-zipformer-zh-14M-2023-02-23-mobile"@,
            display_name: "\u{4e2d}\u{6587} Zipformer 14M (\u{8f7b}\u{91cf}/CPU) \u{2014} ~52 MB"@,
            backend: "sherpa-onnx"@,
            encoder: "encoder-epoch-99-avg-1.int8.onnx"@,
            decoder: "decoder-epoch-99-avg-1.int8.onnx"@,
            joiner: "joiner-epoch-99-avg-1.int8.onnx"@,
            tokens: "tokens.txt"@,
            size_bytes: 54_250_000,
            sv: None,
        },
        ModelView {
            name: "sherpa-onnx-streaming-zipformer-bilingual-zh-en-2023-02-20"@,
            display_name: "\u{4e2d}\u{82f1}\u{53cc}\u{8bed} Zipformer \u{2014} ~72 MB"@,
            backend: "sherpa-onnx"@,
            encoder: "encoder-epoch-99-avg-1.onnx"@,
            decoder: "decoder-epoch-99-avg-1.onnx"@,
            joiner: "joiner-epoch-99-avg-1.onnx"@,
            tokens: "tokens.txt"@,
            size_bytes: 72_000_000,
            sv: None,
        },
        ModelView {
            name: "sherpa-onnx-streaming-zipformer-small-ctc-zh-int8-2025-04-01"@,
            display_name: "\u{6df7}\u{5408} CTC int8 [\u{63a8}\u{8350}] \u{2014} ~176 MB"@,
            backend: "hybrid"@,
            encoder: "model.int8.onnx"@,
            decoder: "tokens.txt"@,
            joiner: Seq::<char>::empty(),
            tokens: "tokens.txt"@,
            size_bytes: 176_000_000,
            sv: Some((
                "sherpa-onnx-sense-voice-zh-en-ja-ko-yue-int8-2024-07-17"@,
                "SenseVoice \u{591a}\u{8bed}\u{8a00} int8 \u{2014} ~156 MB"@,
                155_500_000,
                "model.int8.onnx"@,
                "tokens.txt"@,
            )),
        },
    ]
}

fn transducer_model(
    name: &str,
    display_name: &str,
    size_bytes: u64,
    encoder: &str,
    decoder: &str,
    joiner: &str,
) -> (m: AvailableModel)
    ensures
        model_view(m) == (ModelView {
            name: name@,
            display_name: display_name@,
            backend: "sherpa-onnx"@,
            encoder: encoder@,
            decoder: decoder@,
            joiner: joiner@,
            tokens: "tokens.txt"@,
            size_bytes,
            sv: None,
        }),
{
    AvailableModel {
        name: String::from_str(name),
        display_name: String::from_str(display_name),
        size_bytes,
        files: ModelFiles {
            encoder: String::from_str(encoder),
            decoder: String::from_str(decoder),
            joiner: String::from_str(joiner),
            tokens: String::from_str("tokens.txt"),
        },
        backend: String::from_str("sherpa-onnx"),
        sv_model: None,
    }
}

/// The registry of models offered for download.
pub fn get_available_models() -> (r: Vec<AvailableModel>)
    ensures
        r@.map_values(|m: AvailableModel| model_view(m)) == supported_models(),
{
    let mut r: Vec<AvailableModel> = Vec::new();
    r.push(transducer_model(
        "sherpa-onnx-streaming-zipformer-zh-14M-2023-02-23",
        "\u{4e2d}\u{6587} Zipformer 14M (\u{6807}\u{51c6}) \u{2014} ~74 MB",
        74_004_050,
        "encoder-epoch-99-avg-1.onnx",
        "decoder-epoch-99-avg-1.onnx",
        "joiner-epoch-99-avg-1.onnx",
    ));
    r.push(transducer_model(
        "sherpa-onnx-streaming-zipformer-zh-14M-2023-02-23-mobile",
        "\u{4e2d}\u{6587} Zipformer 14M (\u{8f7b}\u{91cf}/CPU) \u{2014} ~52 MB",
        54_250_000,
        "encoder-epoch-99-avg-1.int8.onnx",
        "decoder-epoch-99-avg-1.int8.onnx",
        "joiner-epoch-99-avg-1.int8.onnx",
    ));
    r.push(transducer_model(
        "sherpa-onnx-streaming-zipformer-bilingual-zh-en-2023-02-20",
        "\u{4e2d}\u{82f1}\u{53cc}\u{8bed} Zipformer \u{2014} ~72 MB",
        72_000_000,
        "encoder-epoch-99-avg-1.onnx",
        "decoder-epoch-99-avg-1.onnx",
        "joiner-epoch-99-avg-1.onnx",
    ));
    r.push(AvailableModel {
        name: String::from_str("sherpa-onnx-streaming-zipformer-small-ctc-zh-int8-2025-04-01"),
        display_name: String::from_str("\u{6df7}\u{5408} CTC int8 [\u{63a8}\u{8350}] \u{2014} ~176 MB"),
        size_bytes: 21_000_000 + 155_000_000,
        files: ModelFiles {
            encoder: String::from_str("model.int8.onnx"),
            decoder: String::from_str("tokens.txt"),
            joiner: String::new(),
            tokens: String::from_str("tokens.txt"),
        },
        backend: String::from_str("hybrid"),
        sv_model: Some(SvModelInfo {
            name: String::from_str("sherpa-onnx-sense-voice-zh-en-ja-ko-yue-int8-2024-07-17"),
            display_name: String::from_str("SenseVoice \u{591a}\u{8bed}\u{8a00} int8 \u{2014} ~156 MB"),
            size_bytes: 155_500_000,
            model_file: String::from_str("model.int8.onnx"),
            tokens_file: String::from_str("tokens.txt"),
        }),
    });
    proof {
        assert(r@.map_values(|m: AvailableModel| model_view(m)) =~= supported_models());
    }
    r
}

/// The first supported model with this name.
pub open spec fn find_model(name: Seq<char>) -> Option<ModelView> {
    if exists|i: int| 0 <= i < supported_models().len() && #[trigger] supported_models()[i].name == name {
        let i = choose|i: int| 0 <= i < supported_models().len() && #[trigger] supported_models()[i].name == name
            && forall|j: int| 0 <= j < i ==> supported_models()[j].name != name;
        Some(supported_models()[i])
    } else {
        None
    }
}

/// A setting of the speech configuration's `asr` section: key and new value.
pub type SettingUpdate = (String, String);

/// The `asr` settings written when a model is chosen: backend, streaming
/// model type, model name and files, and for a hybrid model its CTC and
/// SenseVoice directories and files.
pub open spec fn model_settings(m: ModelView) -> Seq<(Seq<char>, Seq<char>)> {
    let base = seq![
        ("backend"@, m.backend),
        ("streaming_model"@, if m.backend == "hybrid"@ { "zipformer-small-ctc"@ } else { "transducer"@ }),
        ("model_name"@, m.name),
        ("encoder"@, m.encoder),
        ("decoder"@, m.decoder),
        ("joiner"@, m.joiner),
        ("tokens"@, m.tokens),
    ];
    match m.sv {
        Some((sv_name, _, _, sv_model, sv_tokens)) => base + seq![
            ("ctc_model_dir"@, "./models/"@ + m.name),
            ("sv_model_dir"@, "./models/"@ + sv_name),
            ("sv_model"@, sv_model),
            ("sv_tokens"@, sv_tokens),
        ],
        None => base,
    }
}

/// The views of setting updates.
pub open spec fn updates_view(u: Seq<SettingUpdate>) -> Seq<(Seq<char>, Seq<char>)> {
    u.map_values(|p: SettingUpdate| (p.0@, p.1@))
}

fn push_update(u: &mut Vec<SettingUpdate>, key: &str, value: &str)
    ensures
        updates_view(final(u)@) == updates_view(old(u)@).push((key@, value@)),
{
    let ghost u0 = u@;
    u.push((key.to_owned(), value.to_owned()));
    proof {
        assert(updates_view(u@) =~= updates_view(u0).push((key@, value@)));
    }
}

fn models_dir_of(name: &str) -> (r: String)
    ensures
        r@ == "./models/"@ + name@,
{
    let mut v: Vec<char> = Vec::new();
    append_str(&mut v, "./models/");
    append_str(&mut v, name);
    string_from_chars(v.as_slice())
}

/// The settings to write for the model called `model_name`, or
/// `Unknown model: <name>` when no supported model has that name.
pub fn set_stt_model(model_name: &str) -> (r: Result<Vec<SettingUpdate>, String>)
    ensures
        match find_model(model_name@) {
            Some(m) => r is Ok && updates_view(r->Ok_0@) == model_settings(m),
            None => r matches Err(e) && e@ == "Unknown model: "@ + model_name@,
        },
{
    let models = get_available_models();
    let ghost mv = models@.map_values(|m: AvailableModel| model_view(m));
    let mut i: usize = 0;
    while i < models.len()
        invariant
            i <= models@.len(),
            mv == models@.map_values(|m: AvailableModel| model_view(m)),
            mv == supported_models(),
            forall|j: int| 0 <= j < i ==> supported_models()[j].name != model_name@,
        decreases models@.len() - i,
    {
        if str_eq(models[i].name.as_str(), model_name) {
            let m = &models[i];
            proof {
                assert(mv[i as int] == model_view(*m));
                assert(supported_models()[i as int].name == model_name@);
                let k = choose|k: int| 0 <= k < supported_models().len() && #[trigger] supported_models()[k].name == model_name@
                    && forall|j: int| 0 <= j < k ==> supported_models()[j].name != model_name@;
                assert(k == i) by {
                    if k < i {
                        assert(supported_models()[k].name != model_name@);
                    } else if k > i {
                        assert(supported_models()[i as int].name != model_name@);
                    }
                }
            }
            let hybrid = str_eq(m.backend.as_str(), "hybrid");
            let mut u: Vec<SettingUpdate> = Vec::new();
            push_update(&mut u, "backend", m.backend.as_str());
            push_update(&mut u, "streaming_model", if hybrid { "zipformer-small-ctc" } else { "transducer" });
            push_update(&mut u, "model_name", m.name.as_str());
            push_update(&mut u, "encoder", m.files.encoder.as_str());
            push_update(&mut u, "decoder", m.files.decoder.as_str());
            push_update(&mut u, "joiner", m.files.joiner.as_str());
            push_update(&mut u, "tokens", m.files.tokens.as_str());
            match &m.sv_model {
                Some(sv) => {
                    push_update(&mut u, "ctc_model_dir", models_dir_of(m.name.as_str()).as_str());
                    push_update(&mut u, "sv_model_dir", models_dir_of(sv.name.as_str()).as_str());
                    push_update(&mut u, "sv_model", sv.model_file.as_str());
                    push_update(&mut u, "sv_tokens", sv.tokens_file.as_str());
                },
                None => {},
            }
            proof {
                assert(updates_view(u@) =~= model_settings(model_view(*m)));
            }
            return Ok(u);
        }
        i = i + 1;
    }
    let mut e: Vec<char> = Vec::new();
    append_str(&mut e, "Unknown model: ");
    append_str(&mut e, model_name);
    Err(string_from_chars(e.as_slice()))
}

/// The `asr` settings written when a backend is chosen: the backend, its
/// streaming model type, and the execution provider when one is given.
pub fn set_stt_backend(backend: &str, provider: Option<&str>) -> (r: Vec<SettingUpdate>)
    ensures
        updates_view(r@) == seq![
            ("backend"@, backend@),
            ("streaming_model"@, if backend@ == "hybrid"@ { "zipformer-small-ctc"@ } else { "transducer"@ }),
        ] + match provider {
            Some(p) => seq![("provider"@, p@)],
            None => Seq::empty(),
        },
{
    let mut u: Vec<SettingUpdate> = Vec::new();
    push_update(&mut u, "backend", backend);
    push_update(
        &mut u,
        "streaming_model",
        if str_eq(backend, "hybrid") { "zipformer-small-ctc" } else { "transducer" },
    );
    match provider {
        Some(p) => push_update(&mut u, "provider", p),
        None => {},
    }
    proof {
        assert(updates_view(u@) =~= seq![
            ("backend"@, backend@),
            ("streaming_model"@, if backend@ == "hybrid"@ { "zipformer-small-ctc"@ } else { "transducer"@ }),
        ] + match provider {
            Some(p) => seq![("provider"@, p@)],
            None => Seq::empty(),
        });
    }
    u
}

} // verus!

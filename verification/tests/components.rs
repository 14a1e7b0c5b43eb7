use vrc_chat_tool::config::{config_change, AppConfig, ServiceChange};
use vrc_chat_tool::e2e::{E2eAction, E2eServer, HttpMethod};
use vrc_chat_tool::history::{get_audio_device_index, set_audio_device_index, HistoryEntry};
use vrc_chat_tool::hybrid::{HybridDecode, HybridReset, HybridStream};
use vrc_chat_tool::i18n::{provider_short, status_label};
use vrc_chat_tool::listeners::{
    elevation_matches, frame_message, handshake_acknowledged, hud_event_kind, next_reconnect_ms, split_lines_exec,
    HotkeyState, HudEventKind, OverlayIpc, VrListener,
};
use vrc_chat_tool::log::{format_log_line, info, LogBuffer, LogEntry, MAX_LOG_ENTRIES};
use vrc_chat_tool::models::{
    get_available_models, model_status, required_model_files, set_stt_backend, set_stt_model, AsrConfig, ModelDirKind,
};
use vrc_chat_tool::recording::{on_partial, on_sentence, Recognizer, RecordingState, SentenceAction};
use vrc_chat_tool::recordings::{has_wav_extension, list_recordings, recording_filename, recording_wav_bytes, RecordingInfo};
use vrc_chat_tool::sessions::{binary_frame_accepted, ClientSession, LocalSession, RecognitionEvent, SttResponse};
use vrc_chat_tool::audio::SegmentRecorder;
use vrc_chat_tool::streaming::to_websocket_url;
use vrc_chat_tool::text::replace_all_str;
use vrc_chat_tool::vad::VadFilter;

fn asr(backend: &str, streaming: &str) -> AsrConfig {
    AsrConfig {
        model_dir: "./models".to_string(),
        model_name: "m".to_string(),
        encoder: "encoder.onnx".to_string(),
        decoder: "decoder.onnx".to_string(),
        joiner: "".to_string(),
        tokens: "tokens.txt".to_string(),
        num_threads: 6,
        sample_rate: 16000,
        provider: None,
        backend: backend.to_string(),
        streaming_model: streaming.to_string(),
        ctc_model_dir: "./ctc".to_string(),
        sv_model_dir: "./sv".to_string(),
        sv_model: "model.int8.onnx".to_string(),
        sv_tokens: "tokens.txt".to_string(),
        language: "zh".to_string(),
    }
}

fn info_entry(name: &str) -> RecordingInfo {
    RecordingInfo { filename: name.to_string(), path: format!("/r/{}", name), size_bytes: 1, created: "t".to_string() }
}

#[test]
fn device_index_setting_round_trips() {
    let (key, value) = set_audio_device_index(42);
    assert_eq!(key, "audio_device_index");
    assert_eq!(value, "42");
    assert_eq!(get_audio_device_index(Some(&value)), 42);
    assert_eq!(get_audio_device_index(Some("+7")), 7);
    assert_eq!(get_audio_device_index(Some("x7")), 0);
    assert_eq!(get_audio_device_index(Some("")), 0);
    assert_eq!(get_audio_device_index(Some("99999999999999999999999")), 0);
    assert_eq!(get_audio_device_index(None), 0);
    let e = HistoryEntry { id: 1, timestamp: "2024-01-01 00:00:00".into(), text: "t".into(), source: "asr".into() };
    assert_eq!(e.source, "asr");
}

#[test]
fn e2e_routes() {
    let mut s = E2eServer::new();
    let (r, a) = s.route(HttpMethod::Get, "/status");
    assert_eq!((r.status, r.body.as_str()), (200, "{\"status\":\"idle\",\"recording\":false}"));
    assert_eq!(a, E2eAction::Nothing);
    let (r, a) = s.route(HttpMethod::Post, "/start");
    assert_eq!(r.status, 200);
    assert_eq!(a, E2eAction::StartRecording);
    let (r, a) = s.route(HttpMethod::Post, "/start");
    assert_eq!(r.status, 409);
    assert_eq!(r.body, "{\"status\":\"error\",\"message\":\"already recording\"}");
    assert_eq!(a, E2eAction::Nothing);
    let (_, a) = s.route(HttpMethod::Post, "/stop");
    assert_eq!(a, E2eAction::StopRecording);
    s.recording_finished(Err("boom \"x\"".to_string()));
    let (r, _) = s.route(HttpMethod::Get, "/result");
    assert_eq!(r.body, "{\"recording\":false,\"status\":\"idle\",\"text\":\"ERROR: boom \\\"x\\\"\"}");
    assert_eq!(s.route(HttpMethod::Get, "/nope").0.status, 404);
    assert_eq!(s.route(HttpMethod::Options, "/nope").0.status, 200);
}

#[test]
fn stt_response_json_escapes_text() {
    let r = SttResponse { text: "a\"b\n\u{1}".to_string(), is_final: true, segment: 3 };
    assert_eq!(r.to_json(), "{\"text\":\"a\\\"b\\n\\u0001\",\"is_final\":true,\"segment\":3}");
}

#[test]
fn log_lines_and_buffer_bound() {
    assert_eq!(format_log_line(3_723_004, "INFO", "osc", "sent"), "01:02:03.004 [INFO] [osc] sent\n");
    let mut b = LogBuffer::new();
    for i in 0..(MAX_LOG_ENTRIES as u64 + 5) {
        b.log_at(i, "DEBUG", "m", "x");
    }
    let logs = b.get_recent_logs();
    assert_eq!(logs.len(), MAX_LOG_ENTRIES);
    assert_eq!(logs[0].timestamp, 5);
    let line = info(&mut b, "mod", "hello");
    assert!(line.ends_with(" [INFO] [mod] hello\n"));
    b.clear_logs();
    assert!(b.get_recent_logs().is_empty());
    b.push(LogEntry { timestamp: 1, level: "WARN".into(), message: "m".into(), module: "x".into() });
    assert_eq!(b.get_recent_logs().len(), 1);
}

#[test]
fn config_defaults_and_changes() {
    let mut c = AppConfig::default();
    assert_eq!(c.osc_port, 9000);
    assert_eq!(c.trigger_start, "开始语音识别");
    c.tencent_secret_id = "file".to_string();
    c.apply_env_credentials(Some("app".into()), Some("env".into()), None);
    assert_eq!(c.tencent_app_id, "app");
    assert_eq!(c.tencent_secret_id, "file");
    assert_eq!(c.tencent_secret_key, "");
    assert!(!c.has_tencent_credentials());
    let ch = config_change(None, &c);
    assert_eq!(ch.hotkey, ServiceChange::Start);
    assert_eq!(ch.trigger, ServiceChange::Keep);
    let mut n = c.clone();
    n.global_hotkey_enabled = false;
    n.trigger_listener_enabled = true;
    n.local_stt_url = String::new();
    n.trigger_stt_provider = "local".into();
    let ch = config_change(Some(&c), &n);
    assert_eq!(ch.hotkey, ServiceChange::Stop);
    assert_eq!(ch.trigger, ServiceChange::Keep);
    assert!(!n.trigger_listener_wanted());
    n.trigger_stt_provider = "local_embedded".into();
    assert_eq!(config_change(Some(&c), &n).trigger, ServiceChange::Start);
}

#[test]
fn recording_state_and_sentences() {
    let mut cfg = AppConfig::default();
    cfg.asr_provider = "tencent".into();
    let mut st = RecordingState::new();
    assert_eq!(st.start_recording(&cfg).err().unwrap(), "Please configure Tencent Cloud credentials first");
    cfg.asr_provider = "local".into();
    assert!(matches!(st.start_recording(&cfg), Ok(Recognizer::Local(_))));
    assert!(st.is_recording());
    assert_eq!(st.start_recording(&cfg).err().unwrap(), "Recording already in progress");
    st.stop_recording();
    assert!(st.take_stop_request());
    assert!(!st.should_stop());
    st.finish_recording();
    assert!(!st.is_recording());

    match on_sentence("请结束语音识别。", false, "结束语音识别") {
        SentenceAction::Show { text, stop } => {
            assert_eq!(text, "请结束语音识别");
            assert!(stop);
        }
        _ => panic!("expected a shown sentence"),
    }
    assert!(matches!(on_sentence("。。", false, "x"), SentenceAction::Skip));
    assert!(matches!(on_sentence("hi.", true, "x"), SentenceAction::Inject(t) if t == "hi."));
    assert_eq!(on_partial("结束，语音识别", true, "结束语音识别"), (false, true));
}

#[test]
fn client_session_numbers_segments() {
    let mut s = ClientSession::new();
    assert!(s.on_decoded(false, "  ", "").is_none());
    let p = s.on_decoded(false, " 你好 ", "").unwrap();
    assert_eq!((p.text.as_str(), p.is_final, p.segment), ("你好", false, 0));
    assert!(s.on_decoded(false, "你好", "").is_none());
    let f = s.on_decoded(true, "你好", "你好。").unwrap();
    assert_eq!((f.text.as_str(), f.is_final, f.segment), ("你好。", true, 0));
    assert!(s.on_decoded(true, "", " ").is_none());
    let p = s.on_decoded(false, "你好", "").unwrap();
    assert_eq!(p.segment, 2);
    assert!(s.flush("x", "").is_none());
    assert_eq!(s.flush("x", "X").unwrap().segment, 2);
    assert!(binary_frame_accepted(8));
    assert!(!binary_frame_accepted(6));
    assert!(!binary_frame_accepted(0));
}

#[test]
fn local_session_accumulates_sentences() {
    let mut s = LocalSession::new();
    assert!(matches!(s.on_server_reply(Some("part".into()), Some(false), false), RecognitionEvent::Partial(p) if p == "part"));
    assert!(matches!(s.on_server_reply(Some("part".into()), None, true), RecognitionEvent::Nothing));
    assert!(matches!(s.on_server_reply(Some(" one ".into()), Some(true), false), RecognitionEvent::Sentence(x) if x == "one"));
    assert!(matches!(s.on_engine_output(false, Some(" p ".into()), "", true), RecognitionEvent::Partial(x) if x == "p"));
    assert!(matches!(s.on_engine_output(false, Some("p".into()), "", true), RecognitionEvent::Nothing));
    assert!(matches!(s.on_engine_output(true, Some("two".into()), "two.", true), RecognitionEvent::Sentence(x) if x == "two."));
    assert_eq!(s.full_text(), "one\ntwo.\n");
}

#[test]
fn hybrid_stream_refines_after_a_pause() {
    let mut h = HybridStream::new();
    let rate = 16000;
    assert_eq!(h.decode(true, 8000, rate), HybridDecode::Streamed);
    assert!(!h.is_endpoint());
    assert_eq!(h.decode(false, 19199, rate), HybridDecode::Streamed);
    assert!(!h.is_refining());
    assert_eq!(h.decode(false, 1, rate), HybridDecode::Streamed);
    assert!(h.is_refining() && h.is_endpoint());
    assert_eq!(h.decode(true, 1600, rate), HybridDecode::Buffered);
    assert!(h.begin_refine(rate));
    assert_eq!(h.finish_refine("你好。".to_string()), "你好。");
    assert_eq!(h.get_text("stream".to_string()), "你好。");
    assert_eq!(h.reset(), HybridReset::ResetAndReplay(1));
    assert_eq!(h.seg_idx(), 1);
    assert!(!h.is_endpoint());
    assert_eq!(h.get_text("stream".to_string()), "stream");
    assert_eq!(h.reset(), HybridReset::Reset);
}

#[test]
fn short_segment_is_not_refined() {
    let mut h = HybridStream::new();
    h.decode(true, 100, 16000);
    assert!(!h.begin_refine(16000));
    assert!(!h.is_refining());
    assert_eq!(h.finish_refine(String::new()), "");
    assert_eq!(h.reset(), HybridReset::Reset);
}

#[test]
fn listeners_and_hud_messages() {
    let mut hk = HotkeyState::new();
    assert!(hk.start());
    assert!(!hk.start());
    hk.stop();
    assert!(!hk.is_active());
    let mut vr = VrListener::new();
    assert!(vr.start_controller_listener());
    vr.runtime_started(true);
    assert!(vr.is_vr_active());
    assert!(!vr.on_button(true, true, 1000));
    assert!(vr.on_button(true, true, 1300));
    assert!(!vr.on_button(true, true, 1800));
    assert!(!vr.on_button(true, false, 1900));
    let mut ipc = OverlayIpc::new();
    assert!(ipc.start_overlay_ipc());
    assert!(!ipc.start_overlay_ipc());
    ipc.stop_overlay_ipc();
    assert!(!ipc.is_running());
    assert!(handshake_acknowledged("{\"type\":\"ack\"}"));
    assert!(!handshake_acknowledged("{\"type\":\"ac\"}"));
    assert_eq!(frame_message("{}"), b"{}\n".to_vec());
    assert_eq!(hud_event_kind("hello"), HudEventKind::Connected);
    assert_eq!(hud_event_kind("bye"), HudEventKind::Bye);
    assert_eq!(hud_event_kind("config"), HudEventKind::Config);
    assert_eq!(hud_event_kind("data"), HudEventKind::Data);
    assert_eq!(split_lines_exec(b"a\n\nbc\nd"), vec![b"a".to_vec(), b"bc".to_vec(), b"d".to_vec()]);
    assert_eq!(next_reconnect_ms(1000), 2000);
    assert_eq!(next_reconnect_ms(9000), 16000);
    assert!(elevation_matches(true, None));
    assert!(!elevation_matches(true, Some(false)));
}

#[test]
fn display_names() {
    assert_eq!(provider_short("tencent", "zh"), "腾讯云");
    assert_eq!(provider_short("local", "en"), "Remote STT");
    assert_eq!(provider_short("other", "zh"), "other");
    assert_eq!(status_label("recording"), "录音中");
    assert_eq!(status_label("whatever"), "就绪");
}

#[test]
fn model_files_and_status() {
    let files = required_model_files(&asr("sherpa-onnx", "transducer"));
    let labels: Vec<&str> = files.iter().map(|f| f.label.as_str()).collect();
    assert_eq!(labels, vec!["encoder.onnx", "decoder.onnx", "tokens.txt"]);
    let files = required_model_files(&asr("hybrid", "zipformer-small-ctc"));
    let labels: Vec<&str> = files.iter().map(|f| f.label.as_str()).collect();
    assert_eq!(labels, vec!["ctc/encoder.onnx", "ctc/tokens.txt", "sv/model.int8.onnx", "sv/tokens.txt"]);
    assert_eq!(files[0].dir, ModelDirKind::Ctc);
    assert_eq!(files[2].dir, ModelDirKind::SenseVoice);
    let st = model_status(&files, &[true, false, true, false], "m".into(), "d".into());
    assert!(!st.exists);
    assert_eq!(st.missing_files, vec!["ctc/tokens.txt", "sv/tokens.txt"]);
    let st = model_status(&files, &[true, true, true, true], "m".into(), "d".into());
    assert!(st.exists && st.missing_files.is_empty());
}

#[test]
fn model_registry_and_settings() {
    let models = get_available_models();
    assert_eq!(models.len(), 4);
    assert_eq!(models[3].backend, "hybrid");
    assert!(models[3].sv_model.is_some());
    assert_eq!(set_stt_model("nope").err().unwrap(), "Unknown model: nope");
    let upd = set_stt_model("sherpa-onnx-streaming-zipformer-zh-14M-2023-02-23").unwrap();
    assert!(upd.iter().any(|(k, v)| k == "backend" && v == "sherpa-onnx"));
    let b = set_stt_backend("hybrid", Some("cuda"));
    assert!(b.iter().any(|(k, v)| k == "provider" && v == "cuda"));
}

#[test]
fn recordings_are_listed_newest_first() {
    assert!(has_wav_extension("a.wav"));
    assert!(!has_wav_extension(".wav"));
    assert!(!has_wav_extension("a.WAV"));
    assert!(!has_wav_extension("wav"));
    let listed = list_recordings(vec![
        info_entry("recording_1.wav"),
        info_entry("notes.txt"),
        info_entry("recording_3.wav"),
        info_entry("recording_2.wav"),
    ]);
    let names: Vec<&str> = listed.iter().map(|r| r.filename.as_str()).collect();
    assert_eq!(names, vec!["recording_3.wav", "recording_2.wav", "recording_1.wav"]);
    assert_eq!(recording_filename(1700000000), "recording_1700000000.wav");
    let wav = recording_wav_bytes(&[1, 2, 3, 4]);
    assert_eq!(wav.len(), 48);
    assert_eq!(&wav[40..44], &4u32.to_le_bytes());
    assert_eq!(&wav[44..], &[1, 2, 3, 4]);
}

#[test]
fn websocket_url_and_replacement() {
    assert_eq!(to_websocket_url("https://asr.cloud.tencent.com/asr/v2/1?a=b"), "wss://asr.cloud.tencent.com/asr/v2/1?a=b");
    assert_eq!(replace_all_str("aaa", "aa", "b"), "ba");
    assert_eq!(replace_all_str("xyz", "q", "r"), "xyz");
    assert_eq!(replace_all_str("a.b.c", ".", "::"), "a::b::c");
}

#[test]
fn callers_can_check_preconditions() {
    let vad = VadFilter::default_16000();
    assert!(vad.accepts(6400));
    let rec = SegmentRecorder::new();
    assert!(rec.accepts(6400));
    assert!(!rec.accepts(6401));
    assert!(rec.can_finish());
    let h = HybridStream::new();
    assert!(h.accepts(1600));
    let s = ClientSession::new();
    assert_eq!(s.segment(), 0);
}

#[test]
fn test_hybrid_stream_initial_state() {
    let _ = std::mem::size_of::<HybridStream>();
    let h = HybridStream::new();
    assert_eq!(h.seg_idx(), 0);
    assert!(!h.is_refining());
    assert!(!h.is_endpoint());
    assert_eq!(h.get_text("partial".to_string()), "partial");
}

use vrc_chat_tool::config::AppConfig;
use vrc_chat_tool::download::{
    asr_archive_url, asr_required_from_config, model_step, progress_phase, punct_archive_url, punct_required_from_config,
    punctuation_wanted, retry_wait_secs, single_top_directory, size_in_mib, temp_extract_dir, verify_model_files,
    ModelStep,
};
use vrc_chat_tool::gui::{gui_event_from_reply, gui_log_level, GuiEvent, GuiLogLevel, GuiSession};
use vrc_chat_tool::models::{AsrConfig, PunctuationConfig};
use vrc_chat_tool::trigger::{on_heard_text, poll_trigger, TriggerAction, TriggerBackend, TriggerState};

const ASR_REQUIRED_DEFAULT: [&str; 4] = ["encoder.int8.onnx", "decoder.onnx", "joiner.int8.onnx", "tokens.txt"];

#[test]
fn test_verify_model_files() {
    // No files: all missing.
    let missing = verify_model_files(&ASR_REQUIRED_DEFAULT, &[false, false, false, false]);
    assert_eq!(missing.len(), ASR_REQUIRED_DEFAULT.len());
    // One file present: fewer missing.
    let missing = verify_model_files(&ASR_REQUIRED_DEFAULT, &[true, false, false, false]);
    assert_eq!(missing.len(), ASR_REQUIRED_DEFAULT.len() - 1);
    assert!(!missing.contains(&"encoder.int8.onnx".to_string()));
}

#[test]
fn download_plan_pieces() {
    assert_eq!(
        asr_archive_url("m1"),
        "https://github.com/k2-fsa/sherpa-onnx/releases/download/asr-models/m1.tar.bz2"
    );
    assert_eq!(
        punct_archive_url("p"),
        "https://github.com/k2-fsa/sherpa-onnx/releases/download/punctuation-models/p.tar.bz2"
    );
    let asr = AsrConfig {
        model_dir: ".".into(),
        model_name: "m".into(),
        encoder: "e".into(),
        decoder: "d".into(),
        joiner: "j".into(),
        tokens: "t".into(),
        num_threads: 1,
        sample_rate: 16000,
        provider: None,
        backend: "sherpa-onnx".into(),
        streaming_model: "transducer".into(),
        ctc_model_dir: "c".into(),
        sv_model_dir: "s".into(),
        sv_model: "sm".into(),
        sv_tokens: "st".into(),
        language: "zh".into(),
    };
    assert_eq!(asr_required_from_config(&asr), vec!["e", "d", "j", "t"]);
    let mut p = PunctuationConfig::default();
    assert_eq!(punct_required_from_config(&p), vec!["model.int8.onnx"]);
    assert!(!punctuation_wanted(false, &p));
    p.enabled = true;
    p.model_file = "punct.onnx".into();
    p.model_name = "pm".into();
    assert_eq!(punct_required_from_config(&p), vec!["punct.onnx"]);
    assert!(punctuation_wanted(false, &p));
    assert!(!punctuation_wanted(true, &p));
    assert_eq!(model_step(false, true, true), ModelStep::Skip);
    assert_eq!(model_step(false, true, false), ModelStep::Download { remove_existing: false });
    assert_eq!(model_step(true, true, true), ModelStep::Download { remove_existing: true });
    assert_eq!(model_step(true, false, true), ModelStep::Download { remove_existing: false });
    assert_eq!(retry_wait_secs(1, 3), Some(2));
    assert_eq!(retry_wait_secs(2, 3), Some(4));
    assert_eq!(retry_wait_secs(3, 3), None);
    assert_eq!(progress_phase("download", "asr"), "download_asr");
    assert!(single_top_directory(1, true));
    assert!(!single_top_directory(2, true));
    assert_eq!(temp_extract_dir("m"), ".tmp_m");
    assert_eq!(size_in_mib(3 * 1024 * 1024 + 5), "3");
}

#[test]
fn trigger_poll_acts_once_and_reports_status() {
    let mut cfg = AppConfig::default();
    cfg.trigger_listener_enabled = true;
    cfg.trigger_stt_provider = "local".into();
    let mut state = TriggerState::new();
    let mut last = String::new();
    on_heard_text(&mut state, "开始语音识别", "开始语音识别", "结束语音识别");
    let p = poll_trigger(&mut state, Some(&cfg), &mut last, 10_000);
    assert_eq!(p.heard, vec!["开始语音识别"]);
    assert_eq!(p.action, Some(TriggerAction::StartRecording));
    assert_eq!(p.restart, Some(TriggerBackend::Remote));
    assert_eq!(p.status_change, None);
    let p = poll_trigger(&mut state, Some(&cfg), &mut last, 10_200);
    assert!(p.heard.is_empty());
    assert_eq!(p.action, None);
    assert_eq!(p.restart, None);
    assert_eq!(p.status_change, Some("connecting".to_string()));
    assert_eq!(last, "connecting");
    let p = poll_trigger(&mut state, None, &mut last, 10_400);
    assert_eq!(p.status_change, Some("disabled".to_string()));
    on_heard_text(&mut state, "结束语音识别", "开始语音识别", "结束语音识别");
    let p = poll_trigger(&mut state, None, &mut last, 10_600);
    assert_eq!(p.action, Some(TriggerAction::StopRecording));
    assert_eq!(p.status_change, None);
}

#[test]
fn client_window_follows_worker_events() {
    let mut w = GuiSession::new();
    assert!(w.start("10:00:00".into(), false, None));
    assert!(w.is_recording());
    assert_eq!(w.log_count(), 1);
    assert!(!w.on_event(GuiEvent::Connected, "10:00:01".into()));
    assert!(!w.on_event(gui_event_from_reply(Some("你好".into()), None, None), "t".into()));
    assert_eq!(w.partial_text(), "你好");
    assert!(!w.on_event(gui_event_from_reply(Some("你好。".into()), Some(true), Some(7)), "t".into()));
    assert_eq!(w.partial_text(), "");
    assert_eq!(w.segment_count(), 1);
    assert!(w.on_event(GuiEvent::Error("lost".into()), "t".into()));
    assert!(!w.is_recording());
    assert!(!w.on_event(GuiEvent::Disconnected, "t".into()));
    assert!(!w.start("t".into(), true, None));
    assert!(!w.is_recording());
    assert_eq!(w.log_count(), 1);
    assert!(w.start("t".into(), true, Some("a.wav".into())));
    assert_eq!(gui_log_level("warn"), GuiLogLevel::Warn);
    assert_eq!(gui_log_level("debug"), GuiLogLevel::Info);
    match gui_event_from_reply(None, Some(true), Some(0x1_0000_0005)) {
        GuiEvent::Final { text, segment } => {
            assert_eq!(text, "");
            assert_eq!(segment, 5);
        }
        _ => panic!("expected a final segment"),
    }
}

#[test]
fn client_log_keeps_at_most_five_hundred_lines() {
    let mut w = GuiSession::new();
    for i in 0..501 {
        w.add_log(format!("{}", i), GuiLogLevel::Info, "m".into());
    }
    assert_eq!(w.log_count(), 301);
}

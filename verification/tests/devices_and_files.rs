use vrc_chat_tool::audio::choose_input_device;
use vrc_chat_tool::config::AppConfig;
use vrc_chat_tool::download::punctuation_wanted;
use vrc_chat_tool::models::{get_available_models, PunctuationConfig};
use vrc_chat_tool::osc::OscSender;
use vrc_chat_tool::recording::RecordingState;
use vrc_chat_tool::recordings::saved_recording_bytes;
use vrc_chat_tool::streaming::{completed_sentence, RecogResponse, RecogResult};
use vrc_chat_tool::tencent::generate_signature;

fn names(v: &[&str]) -> Vec<String> {
    v.iter().map(|s| s.to_string()).collect()
}

#[test]
fn input_device_default_requests() {
    let devs = names(&["Default Mic", "USB Microphone"]);
    assert_eq!(choose_input_device(&devs, None), None);
    assert_eq!(choose_input_device(&devs, Some("")), None);
    assert_eq!(choose_input_device(&devs, Some("Default")), None);
}

#[test]
fn input_device_case_insensitive_first_match() {
    let devs = names(&["Speakers", "HEADSET MIC", "Headset Mic 2"]);
    assert_eq!(choose_input_device(&devs, Some("headset")), Some(1));
    assert_eq!(choose_input_device(&devs, Some("Mic 2")), Some(2));
    assert_eq!(choose_input_device(&devs, Some("webcam")), None);
}

#[test]
fn empty_test_recording_is_not_saved() {
    match saved_recording_bytes(&[]) {
        Err(e) => assert_eq!(e, "No audio data captured"),
        Ok(_) => panic!("an empty recording must not be saved"),
    }
    let wav = saved_recording_bytes(&[1, 2, 3, 4]).unwrap();
    assert_eq!(wav.len(), 48);
    assert_eq!(&wav[0..4], b"RIFF");
    assert_eq!(&wav[44..], &[1, 2, 3, 4]);
}

#[test]
fn default_trigger_phrases() {
    let c = AppConfig::default();
    assert_eq!(c.trigger_start, "开始语音识别");
    assert_eq!(c.trigger_stop, "停止语音识别");
}

#[test]
fn start_while_recording_is_refused_for_any_provider() {
    let mut state = RecordingState::new();
    let mut cfg = AppConfig::default();
    cfg.asr_provider = "local".to_string();
    assert!(state.start_recording(&cfg).is_ok());
    cfg.asr_provider = "something-else".to_string();
    match state.start_recording(&cfg) {
        Err(e) => assert_eq!(e, "Recording already in progress"),
        Ok(_) => panic!("a second recording must be refused"),
    }
}

#[test]
fn blank_sentence_with_any_retention() {
    let mut s = OscSender::with_config("127.0.0.1".to_string(), 9000, 2, u64::MAX, true);
    assert!(s.send_chatbox("   ").is_none());
    assert!(s.buffered_texts().is_empty());
}

#[test]
fn signature_ignores_parameter_order() {
    let a = [("timestamp", "1234567890"), ("secretid", "test_secret_id"), ("nonce", "42")];
    let b = [("nonce", "42"), ("timestamp", "1234567890"), ("secretid", "test_secret_id")];
    let sa = generate_signature("k", "app", &a);
    let sb = generate_signature("k", "app", &b);
    assert_eq!(sa, sb);
    assert_eq!(sa.len(), 28);
}

#[test]
fn completed_sentences_of_responses() {
    let resp = |slice_type: i32, text: &str| RecogResponse {
        code: 0,
        message: String::new(),
        voice_id: None,
        result: Some(RecogResult { slice_type, index: 0, start_time: 0, end_time: 0, voice_text_str: text.to_string() }),
    };
    assert_eq!(completed_sentence(&resp(2, " 你好。 ")), Some("你好。".to_string()));
    assert_eq!(completed_sentence(&resp(1, "你好")), None);
    assert_eq!(completed_sentence(&resp(2, "  ")), None);
}

#[test]
fn model_display_names() {
    let models = get_available_models();
    assert_eq!(models[0].display_name, "中文 Zipformer 14M (标准) — ~74 MB");
    let sv = models[3].sv_model.as_ref().unwrap();
    assert_eq!(sv.display_name, "SenseVoice 多语言 int8 — ~156 MB");
    assert_eq!(sv.size_bytes, 155_500_000);
}

#[test]
fn test_punctuation_disabled_by_default() {
    let p = PunctuationConfig::default();
    assert!(!p.enabled);
    assert!(!punctuation_wanted(false, &p));
}

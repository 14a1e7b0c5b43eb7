use vrc_chat_tool::trigger::{
    can_restart, drain_heard_texts, is_paused, is_trigger_detected, last_trigger_text, matches_trigger,
    on_heard_text, pause_audio, resume_audio, start_trigger_listener, strip_punctuation, stt_status,
    HeardOutcome, TriggerBackend, TriggerState, MAX_HEARD_TEXTS,
};

#[test]
fn test_strip_punctuation_ascii() {
    assert_eq!(strip_punctuation("hello, world!"), "hello world");
    assert_eq!(strip_punctuation("no-punctuation"), "nopunctuation");
    assert_eq!(strip_punctuation("abc123"), "abc123");
}

#[test]
fn test_strip_punctuation_chinese() {
    assert_eq!(strip_punctuation("开始，语音识别"), "开始语音识别");
    assert_eq!(strip_punctuation("结束。语音识别"), "结束语音识别");
    assert_eq!(strip_punctuation("开始、语音识别！"), "开始语音识别");
    assert_eq!(strip_punctuation("今天天气怎么样"), "今天天气怎么样");
}

#[test]
fn test_strip_punctuation_mixed() {
    assert_eq!(strip_punctuation("「开始」语音识别……"), "开始语音识别");
    assert_eq!(strip_punctuation("《结束》语音识别？"), "结束语音识别");
}

#[test]
fn test_strip_punctuation_empty() {
    assert_eq!(strip_punctuation(""), "");
    assert_eq!(strip_punctuation("。。。"), "");
}

#[test]
fn test_matches_trigger_exact() {
    assert!(matches_trigger("开始语音识别", "开始语音识别"));
    assert!(matches_trigger("结束语音识别", "结束语音识别"));
    assert!(!matches_trigger("今天天气怎么样", "开始语音识别"));
}

#[test]
fn test_matches_trigger_with_punctuation() {
    assert!(matches_trigger("开始，语音识别", "开始语音识别"));
    assert!(matches_trigger("开始。语音识别", "开始语音识别"));
    assert!(matches_trigger("开始、语音识别！", "开始语音识别"));
    assert!(matches_trigger("结束，语音识别", "结束语音识别"));
    assert!(matches_trigger("麻烦，开始，语音识别一下", "开始语音识别"));
}

#[test]
fn test_matches_trigger_in_sentence() {
    assert!(matches_trigger("请开始语音识别吧", "开始语音识别"));
    assert!(matches_trigger("请，开始，语音识别吧", "开始语音识别"));
}

#[test]
fn test_drain_heard_texts() {
    let mut state = TriggerState::new();
    on_heard_text(&mut state, "hello", "开始语音识别", "结束语音识别");
    on_heard_text(&mut state, "world", "开始语音识别", "结束语音识别");
    let texts = drain_heard_texts(&mut state);
    assert_eq!(texts, vec!["hello", "world"]);
    let texts2 = drain_heard_texts(&mut state);
    assert!(texts2.is_empty());
}

#[test]
fn test_pause_resume() {
    let mut state = TriggerState::new();
    assert!(!is_paused(&state));
    pause_audio(&mut state);
    assert!(is_paused(&state));
    resume_audio(&mut state);
    assert!(!is_paused(&state));
}

#[test]
fn start_phrase_is_detected_once() {
    let mut state = TriggerState::new();
    let o = on_heard_text(&mut state, " 麻烦，开始，语音识别一下 ", "开始语音识别", "结束语音识别");
    assert!(matches!(o, HeardOutcome::Start));
    assert_eq!(last_trigger_text(&state), "start");
    assert!(is_trigger_detected(&mut state));
    assert!(!is_trigger_detected(&mut state));
}

#[test]
fn stop_phrase_and_plain_text() {
    let mut state = TriggerState::new();
    assert!(matches!(on_heard_text(&mut state, "结束。语音识别", "开始语音识别", "结束语音识别"), HeardOutcome::Stop));
    assert_eq!(last_trigger_text(&state), "stop");
    assert!(matches!(on_heard_text(&mut state, "今天天气怎么样", "开始语音识别", "结束语音识别"), HeardOutcome::Heard));
    assert!(matches!(on_heard_text(&mut state, "   ", "开始语音识别", "结束语音识别"), HeardOutcome::Ignored));
    assert_eq!(drain_heard_texts(&mut state), vec!["结束。语音识别", "今天天气怎么样"]);
}

#[test]
fn heard_texts_keep_the_newest_twenty() {
    let mut state = TriggerState::new();
    for i in 0..25 {
        on_heard_text(&mut state, &format!("t{}", i), "开始", "结束");
    }
    let texts = drain_heard_texts(&mut state);
    assert_eq!(texts.len(), MAX_HEARD_TEXTS);
    assert_eq!(texts[0], "t5");
    assert_eq!(texts[19], "t24");
}

#[test]
fn restarts_are_paced_five_seconds_apart() {
    let mut state = TriggerState::new();
    assert!(can_restart(&mut state, 10_000));
    assert!(!can_restart(&mut state, 14_999));
    assert!(can_restart(&mut state, 15_000));
}

#[test]
fn listener_backend_choice() {
    let mut state = TriggerState::new();
    assert!(matches!(start_trigger_listener(&mut state, "tencent", ""), TriggerBackend::Disabled));
    assert!(matches!(start_trigger_listener(&mut state, "local_embedded", ""), TriggerBackend::LocalEmbedded));
    assert_eq!(stt_status(&state), "connecting");
    assert!(matches!(start_trigger_listener(&mut state, "local", "ws://x"), TriggerBackend::AlreadyRunning));
}

use vrc_chat_tool::osc::OscSender;

#[test]
fn test_strip_trailing_punctuation_chinese() {
    assert_eq!(OscSender::strip_trailing_punctuation("你好世界。"), "你好世界");
    assert_eq!(OscSender::strip_trailing_punctuation("你好世界！"), "你好世界");
    assert_eq!(OscSender::strip_trailing_punctuation("你好世界？"), "你好世界");
    assert_eq!(OscSender::strip_trailing_punctuation("你好世界，"), "你好世界");
}

#[test]
fn test_strip_trailing_punctuation_english() {
    assert_eq!(OscSender::strip_trailing_punctuation("Hello world."), "Hello world");
    assert_eq!(OscSender::strip_trailing_punctuation("Hello world!"), "Hello world");
    assert_eq!(OscSender::strip_trailing_punctuation("Hello world?"), "Hello world");
    assert_eq!(OscSender::strip_trailing_punctuation("Hello, world;"), "Hello, world");
}

#[test]
fn test_strip_trailing_punctuation_preserves_inner() {
    assert_eq!(OscSender::strip_trailing_punctuation("你好，世界。"), "你好，世界");
    assert_eq!(OscSender::strip_trailing_punctuation("Hello, world."), "Hello, world");
}

#[test]
fn test_strip_trailing_punctuation_no_punct() {
    assert_eq!(OscSender::strip_trailing_punctuation("你好世界"), "你好世界");
    assert_eq!(OscSender::strip_trailing_punctuation("Hello world"), "Hello world");
}

#[test]
fn test_strip_trailing_punctuation_empty() {
    assert_eq!(OscSender::strip_trailing_punctuation(""), "");
}

#[test]
fn test_strip_trailing_punctuation_only_punct() {
    assert_eq!(OscSender::strip_trailing_punctuation("。"), "");
    assert_eq!(OscSender::strip_trailing_punctuation("..."), "");
}

#[test]
fn test_now_ms_returns_positive() {
    let ts = OscSender::now_ms();
    assert!(ts > 0, "Timestamp should be positive, got {}", ts);
}

#[test]
fn test_buffer_respects_line_count() {
    let mut sender = OscSender::with_config("127.0.0.1".to_string(), 9000, 2, 3600, true);
    let now = OscSender::now_ms();
    sender.push_message("第一句".to_string(), now);
    sender.push_message("第二句".to_string(), now);
    sender.push_message("第三句".to_string(), now);
    let combined = sender.combined_text();
    assert_eq!(combined, "第二句\n第三句");
}

#[test]
fn test_buffer_expiry() {
    let mut sender = OscSender::with_config("127.0.0.1".to_string(), 9000, 10, 1, true);
    let old_time = OscSender::now_ms().saturating_sub(2000);
    sender.push_message("旧消息".to_string(), old_time);
    sender.push_message("新消息".to_string(), OscSender::now_ms());
    sender.expire_messages(OscSender::now_ms());
    let remaining = sender.buffered_texts();
    assert_eq!(remaining.len(), 1);
    assert_eq!(remaining[0], "新消息");
}

#[test]
fn test_last_sent_dedup() {
    let mut sender = OscSender::with_config("127.0.0.1".to_string(), 9000, 2, 3600, true);
    sender.record_sent("测试消息");
    assert_eq!(sender.last_sent(), "测试消息");
}

#[test]
fn test_sender_default_config() {
    let sender = OscSender::new("127.0.0.1".to_string(), 9000);
    assert_eq!(sender.line_count(), 2);
    assert_eq!(sender.retention_secs(), 5);
    assert!(sender.remove_period());
}

#[test]
fn test_sender_line_count_minimum() {
    let sender = OscSender::with_config("127.0.0.1".to_string(), 9000, 0, 5, true);
    assert_eq!(sender.line_count(), 1, "line_count should be clamped to minimum 1");
}

// The OSC wire format of the chatbox messages (OSC 1.0: padded address, type
// tags, padded string argument, booleans as tags only).
#[test]
fn chatbox_message_bytes_are_osc_encoded() {
    let mut sender = OscSender::new("127.0.0.1".to_string(), 9000);
    let d = sender.send_chatbox_at("  hi。 ", 1000).unwrap();
    assert_eq!(d.text, "hi");
    let mut expected: Vec<u8> = Vec::new();
    expected.extend_from_slice(b"/chatbox/input\0\0");
    expected.extend_from_slice(b",sTF\0\0\0\0");
    expected.extend_from_slice(b"hi\0\0");
    assert_eq!(d.bytes, expected);
}

#[test]
fn typing_message_bytes_are_osc_encoded() {
    let sender = OscSender::new("127.0.0.1".to_string(), 9000);
    let mut on: Vec<u8> = Vec::new();
    on.extend_from_slice(b"/chatbox/typing\0");
    on.extend_from_slice(b",T\0\0");
    assert_eq!(sender.send_typing(true), on);
    let mut off: Vec<u8> = Vec::new();
    off.extend_from_slice(b"/chatbox/typing\0");
    off.extend_from_slice(b",F\0\0");
    assert_eq!(sender.send_typing(false), off);
}

#[test]
fn blank_sentence_sends_nothing() {
    let mut sender = OscSender::new("127.0.0.1".to_string(), 9000);
    assert!(sender.send_chatbox_at("   ", 5).is_none());
    assert!(sender.buffered_texts().is_empty());
}

#[test]
fn newest_sentence_is_last_line_and_old_ones_expire() {
    let mut sender = OscSender::with_config("h".to_string(), 1, 2, 5, false);
    sender.send_chatbox_at("one.", 1_000);
    sender.send_chatbox_at("two", 2_000);
    let d = sender.send_chatbox_at("three", 3_000).unwrap();
    assert_eq!(d.text, "two\nthree");
    assert_eq!(sender.buffered_texts(), vec!["one.", "two", "three"]);
    let d = sender.send_chatbox_at("four", 6_500).unwrap();
    // "one." (at 1000) is older than 6500 - 5000 and leaves the buffer.
    assert_eq!(sender.buffered_texts(), vec!["two", "three", "four"]);
    assert_eq!(d.text, "three\nfour");
}

#[test]
fn partial_is_shown_below_and_not_repeated() {
    let mut sender = OscSender::new("h".to_string(), 1);
    sender.send_chatbox_at("done", 10);
    let p = sender.send_partial(" typing ").unwrap();
    assert_eq!(p.text, "done\ntyping");
    sender.record_sent(&p.text);
    assert!(sender.send_partial("typing").is_none());
    assert!(sender.send_partial("").is_none());
}

#[test]
fn clear_chatbox_empties_buffer_and_sends_notice() {
    let mut sender = OscSender::new("h".to_string(), 1);
    sender.send_chatbox_at("x", 10);
    let d = sender.clear_chatbox();
    assert_eq!(d.text, "语音识别已停止");
    assert!(sender.buffered_texts().is_empty());
}

use vrc_chat_tool::osc::OscSender;
use vrc_chat_tool::tencent::generate_signature;
use vrc_chat_tool::trigger::{matches_trigger, strip_punctuation};

#[test]
fn stripping_punctuation_twice_changes_nothing_more() {
    for s in ["「开始」语音识别……", "a,b.c!", "", "。。。", "plain text"] {
        let once = strip_punctuation(s);
        assert_eq!(strip_punctuation(&once), once);
        assert!(!once.chars().any(|c| c.is_ascii_punctuation() || "，。、！「」…".contains(c)));
    }
}

#[test]
fn phrase_is_found_whatever_surrounds_it() {
    for (before, after) in [("", ""), ("请，", "吧！"), ("……", "。。。"), ("abc, ", "?")] {
        let text = format!("{}开始语音识别{}", before, after);
        assert!(matches_trigger(&text, "开始语音识别"));
        assert!(matches_trigger(&strip_punctuation(&text), "开始语音识别"));
    }
}

#[test]
fn stripping_trailing_punctuation_twice_changes_nothing_more() {
    for s in ["你好。！", "Hello...", "a—b—", "。", ""] {
        let once = OscSender::strip_trailing_punctuation(s);
        assert_eq!(OscSender::strip_trailing_punctuation(&once), once);
        assert!(s.starts_with(once.as_str()));
    }
}

#[test]
fn signature_is_base64_of_a_twenty_byte_mac() {
    // HMAC-SHA1 gives 20 bytes; Base64 turns them into 4 * ceil(20 / 3) = 28 characters.
    let sig = generate_signature("k", "app", &[("a", "1"), ("b", "2")]);
    assert_eq!(sig.len(), 28);
    assert!(sig.ends_with('='));
}

use vrc_chat_tool::streaming::StreamingRecognizer;
use vrc_chat_tool::tencent::{build_asr_url, build_asr_url_at, generate_signature};

#[test]
fn test_build_asr_url_format() {
    let recognizer = StreamingRecognizer::new("12345".into(), "test_id".into(), "test_key".into());
    let url = recognizer.build_asr_url(16000);
    assert!(url.starts_with("https://"));
    assert!(url.contains("signature="));
    assert!(url.contains("engine_model_type=16k_zh"));
}

#[test]
fn test_generate_signature_known() {
    let secret_key = "test_secret_key";
    let app_id = "test_app";
    let params = [("timestamp", "1234567890"), ("secretid", "test_secret_id")];
    let sig = generate_signature(secret_key, app_id, &params);
    assert!(!sig.is_empty(), "signature should not be empty");
    assert!(sig.len() > 10, "signature should be a reasonable length");
}

#[test]
fn test_generate_signature_deterministic() {
    let secret_key = "test_secret_key";
    let app_id = "test_app";
    let params = [("timestamp", "1234567890")];
    let sig1 = generate_signature(secret_key, app_id, &params);
    let sig2 = generate_signature(secret_key, app_id, &params);
    assert_eq!(sig1, sig2, "same inputs should produce same signature");
}

#[test]
fn test_build_url_format() {
    let url = build_asr_url("12345", "test_secret_id", "test_secret_key", "16k_zh", 1, true);
    assert!(
        url.starts_with("wss://") || url.starts_with("https://"),
        "URL should start with wss:// or https://, got: {}",
        url
    );
    assert!(url.contains("signature="), "URL should contain signature=, got: {}", url);
    assert!(url.contains("engine_model_type=16k_zh"), "URL should contain engine_model_type=16k_zh, got: {}", url);
}

// HMAC-SHA1 over "asr.cloud.tencent.com/asr/v2/test_app?secretid=test_secret_id&timestamp=1234567890"
// (parameters sorted by name) under "test_secret_key", in standard Base64.
#[test]
fn signature_has_the_known_value() {
    let params = [("timestamp", "1234567890"), ("secretid", "test_secret_id")];
    assert_eq!(generate_signature("test_secret_key", "test_app", &params), "tBQe0D4wbvUmjRKqCApVH1f+w1I=");
    let one = [("timestamp", "1234567890")];
    assert_eq!(generate_signature("test_secret_key", "test_app", &one), "lbYeJkYqAH/B9Yic5hQbaYn8/RI=");
}

#[test]
fn signed_url_is_exact_for_a_fixed_time_and_voice_id() {
    let url = build_asr_url_at(
        "12345",
        "test_secret_id",
        "test_secret_key",
        "16k_zh",
        1,
        true,
        1_700_000_000,
        "01234567-89ab-cdef-0123-456789abcdef",
    );
    assert_eq!(
        url,
        "https://asr.cloud.tencent.com/asr/v2/12345?engine_model_type=16k_zh&expired=1700086400&needvad=1\
&nonce=1700000000&secretid=test_secret_id&timestamp=1700000000&voice_format=1\
&voice_id=01234567-89ab-cdef-0123-456789abcdef&signature=nWiep7l5XDFLRkD7mxxmq9cE0lY%3D"
    );
}

#[test]
fn streaming_recognizer_uses_its_credentials_and_format() {
    let r = StreamingRecognizer::new("12345".into(), "test_secret_id".into(), "test_secret_key".into());
    let url = r.build_asr_url_at(16000, 1_700_000_000, "01234567-89ab-cdef-0123-456789abcdef");
    assert!(url.ends_with("&signature=nWiep7l5XDFLRkD7mxxmq9cE0lY%3D"));
    let url8k = r.build_asr_url_at(8000, 1_700_000_000, "v");
    assert!(url8k.contains("&voice_format=2&"));
}

#[test]
fn fresh_url_carries_a_uuid_voice_id() {
    let url = build_asr_url("1", "a", "b", "16k_zh", 1, false);
    let start = url.find("voice_id=").unwrap() + "voice_id=".len();
    let rest = &url[start..];
    let end = rest.find('&').unwrap();
    assert_eq!(rest[..end].len(), 36);
    assert!(url.contains("&needvad=0&"));
}

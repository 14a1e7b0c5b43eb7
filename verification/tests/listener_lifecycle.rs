use vrc_chat_tool::listeners::{
    bye_line, hello_line, is_toggle_hotkey, HudProcess, OverlayIpc, PipeAction, PipePhase, VrListener, HUD_EXIT_POLLS,
    WM_HOTKEY,
};
use vrc_chat_tool::models::{default_true, default_port, default_host};
use vrc_chat_tool::streaming::{batch_response_step, BatchStep, RecogResponse, RecogResult};
use vrc_chat_tool::trigger::{
    is_active, is_trigger_detected, last_trigger_text, listener_stopped, register_capture, set_stop_detected,
    set_stt_status, start_trigger_listener, stop_capture, stt_status, TriggerBackend, TriggerState,
};

fn response(code: i32, slice: Option<i32>, text: &str) -> RecogResponse {
    RecogResponse {
        code,
        message: "invalid appid".to_string(),
        voice_id: None,
        result: slice.map(|k| RecogResult {
            slice_type: k,
            index: 0,
            start_time: 0,
            end_time: 1000,
            voice_text_str: text.to_string(),
        }),
    }
}

#[test]
fn one_shot_recognition_steps() {
    assert!(matches!(batch_response_step(&response(4001, None, "")), BatchStep::Failed(m) if m == "ASR error: invalid appid"));
    assert!(matches!(batch_response_step(&response(0, Some(2), "你好世界")), BatchStep::Final(t) if t == "你好世界"));
    assert!(matches!(batch_response_step(&response(0, Some(1), "你")), BatchStep::Continue));
    assert!(matches!(batch_response_step(&response(0, None, "")), BatchStep::Continue));
}

#[test]
fn capture_stop_and_listener_state() {
    let mut st = TriggerState::new();
    assert!(!stop_capture(&mut st));
    register_capture(&mut st);
    assert!(stop_capture(&mut st));
    assert!(matches!(start_trigger_listener(&mut st, "local_embedded_hybrid", ""), TriggerBackend::LocalEmbeddedHybrid));
    assert!(is_active(&st));
    set_stt_status(&mut st, "connected");
    assert_eq!(stt_status(&st), "connected");
    listener_stopped(&mut st);
    assert!(!is_active(&st));
    assert!(!stop_capture(&mut st));
    set_stop_detected(&mut st);
    assert_eq!(last_trigger_text(&st), "stop");
    assert!(is_trigger_detected(&mut st));
}

#[test]
fn vr_and_hud_lifecycle() {
    let mut vr = VrListener::new();
    assert!(vr.start_controller_listener());
    assert!(!vr.start_controller_listener());
    vr.runtime_started(false);
    assert!(!vr.is_running());
    assert!(vr.start_controller_listener());
    vr.runtime_started(true);
    vr.stop_controller_listener();
    assert!(!vr.is_running());
    vr.listener_exited();
    assert!(!vr.is_vr_active());
    let mut hud = HudProcess::new();
    assert!(!hud.kill());
    hud.spawned();
    assert!(hud.is_running(false));
    assert!(!hud.is_running(true));
    assert!(hud.kill());
    assert!(!hud.is_running(false));
    assert_eq!(HUD_EXIT_POLLS, 150);
}

#[test]
fn server_defaults() {
    assert!(default_true());
    assert_eq!(default_port(), 8765);
    assert_eq!(default_host(), "0.0.0.0");
}

#[test]
fn hotkey_messages() {
    assert!(is_toggle_hotkey(WM_HOTKEY, 1));
    assert!(!is_toggle_hotkey(WM_HOTKEY, 2));
    assert!(!is_toggle_hotkey(0x0100, 1));
}

#[test]
fn overlay_text_updates_only_given_fields() {
    use_overlay();
}

fn use_overlay() {
    let mut o = vrc_chat_tool::overlay::OverlayText::new();
    assert_eq!(o.status, "idle");
    assert_eq!(o.model, "sherpa-onnx");
    o.update(Some("recognizing".into()), Some("你好".into()), None, None, Some(false));
    assert_eq!(o.status, "recognizing");
    assert_eq!(o.current_text, "你好");
    assert_eq!(o.last_sentence, "");
    assert!(!o.visible);
    let s = vrc_chat_tool::overlay::overlay_status_after(false, Some("recognizing".into()));
    assert_eq!(s, Some("idle".to_string()));
    assert_eq!(vrc_chat_tool::overlay::overlay_status_after(true, None), Some("recognizing".to_string()));
    assert_eq!(vrc_chat_tool::overlay::overlay_status_after(false, Some("stop".into())), Some("stop".to_string()));
    assert_eq!(vrc_chat_tool::overlay::overlay_status_after(false, None), None);
}

#[test]
fn overlay_pipe_protocol_order() {
    let mut ipc = OverlayIpc::new();
    assert_eq!(ipc.phase(), PipePhase::Stopped);
    ipc.set_hud_config();
    assert!(ipc.start_overlay_ipc());
    assert_eq!(ipc.phase(), PipePhase::Start);
    assert_eq!(ipc.step(true), PipeAction::CreatePipe);
    assert_eq!(ipc.step(true), PipeAction::AwaitClient);
    assert_eq!(ipc.step(true), PipeAction::SendHello);
    assert_eq!(ipc.step(true), PipeAction::ReadReply);
    assert_eq!(ipc.step(true), PipeAction::SendConfig);
    assert_eq!(ipc.step(true), PipeAction::SendData);
    assert_eq!(ipc.step(true), PipeAction::Pause(33));
    assert_eq!(ipc.step(true), PipeAction::SendData);
    assert_eq!(ipc.step(true), PipeAction::Pause(33));
    ipc.stop_overlay_ipc();
    assert_eq!(ipc.step(true), PipeAction::SendBye);
    assert_eq!(ipc.step(true), PipeAction::ClosePipe);
    assert_eq!(ipc.step(true), PipeAction::Exit);
    assert_eq!(ipc.step(true), PipeAction::Exit);
    assert_eq!(hello_line(), b"{\"type\":\"hello\"}\n".to_vec());
    assert_eq!(bye_line(), b"{\"type\":\"bye\"}\n".to_vec());
}

#[test]
fn overlay_pipe_without_config_and_failures() {
    let mut ipc = OverlayIpc::new();
    assert!(ipc.start_overlay_ipc());
    assert_eq!(ipc.step(true), PipeAction::CreatePipe);
    assert_eq!(ipc.step(false), PipeAction::Pause(2000));
    assert_eq!(ipc.step(true), PipeAction::CreatePipe);
    assert_eq!(ipc.step(true), PipeAction::AwaitClient);
    assert_eq!(ipc.step(false), PipeAction::ClosePipeAndPause(2000));
    assert_eq!(ipc.step(true), PipeAction::CreatePipe);
    assert_eq!(ipc.step(true), PipeAction::AwaitClient);
    assert_eq!(ipc.step(true), PipeAction::SendHello);
    assert_eq!(ipc.step(true), PipeAction::ReadReply);
    assert_eq!(ipc.step(false), PipeAction::ClosePipe);
    assert_eq!(ipc.step(true), PipeAction::CreatePipe);
    assert_eq!(ipc.step(true), PipeAction::AwaitClient);
    assert_eq!(ipc.step(true), PipeAction::SendHello);
    assert_eq!(ipc.step(true), PipeAction::ReadReply);
    assert_eq!(ipc.step(true), PipeAction::SendData);
    assert_eq!(ipc.step(false), PipeAction::RespawnHudAndClose);
    assert_eq!(ipc.step(true), PipeAction::CreatePipe);
}

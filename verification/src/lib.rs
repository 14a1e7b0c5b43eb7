//! Verified core of a speech-to-chatbox tool: text matching for trigger
//! phrases, the chatbox line buffer and its OSC wire format, request
//! signing for the streaming recognizer, audio framing, voice-activity
//! detection, and the small state machines that drive the listeners.

pub mod text;
pub mod trigger;
pub mod osc;
pub mod signing;
pub mod tencent;
pub mod streaming;
pub mod audio;
pub mod vad;
pub mod config;
pub mod log;
pub mod i18n;
pub mod history;
pub mod listeners;
pub mod sessions;
pub mod recording;
pub mod json;
pub mod e2e;
pub mod models;
pub mod recordings;
pub mod hybrid;
pub mod download;
pub mod gui;
pub mod overlay;
pub mod laws;

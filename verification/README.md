# vrc_chat_tool

A speech-to-chatbox tool for VRChat: recognized speech is shown in the game's
chatbox over OSC. The core is a Verus-verified library; a thin command-line
program around it does the input and output.

## Layout

- `src/` — the verified library.
  - `text`, `json`: string helpers (trimming, searching, decimal numbers,
    replacement, JSON quoting) with exact specifications.
  - `trigger`: punctuation-tolerant matching of the start and stop phrases,
    and the trigger listener's state and polling step.
  - `osc`: the chatbox line buffer and the OSC 1.0 wire format of its messages.
  - `signing`, `tencent`, `streaming`: request signing (HMAC-SHA1, Base64,
    percent-encoding) and the signed URL of the cloud recognizer, and what the
    recognition loop does with its replies.
  - `audio`, `vad`, `recordings`: WAV headers, 200 ms PCM chunks, the energy
    decision and hangover of the voice detector, the upload filter that
    decides what audio is billed, and the test recordings.
  - `sessions`, `hybrid`, `recording`, `e2e`, `gui`, `overlay`: the state machines of the
    speech server's client sessions, the hybrid recognizer, the recording
    pipeline, the end-to-end test endpoint, the desktop test client and the
    VR overlay text.
  - `config`, `models`, `download`, `history`, `log`, `i18n`, `listeners`:
    settings, speech models and their downloads, stored settings, the log
    buffer, display names, and the hotkey, VR controller and overlay listeners.
  - `laws`: properties that span several functions, proved once for all inputs.
- `tests/` — tests of the library on concrete values.
- `app/` — the command-line program: settings files, UDP, SQLite, HTTP and
  WebSocket I/O, and the floating-point conversions.

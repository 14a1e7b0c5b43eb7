//! Lifecycles of the background listeners (global hotkey, VR controller,
//! overlay pipe) and the decisions they make: double-click detection, the
//! overlay handshake, framing and message kinds, reconnect pacing.
use vstd::prelude::*;
use vstd::utf8::encode_utf8;
use crate::text::{chars_of, contains_chars, contains_seq, str_eq};

verus! {

/// Whether the global hotkey listener runs.
pub struct HotkeyState {
    active: bool,
}

impl View for HotkeyState {
    type V = bool;

    closed spec fn view(&self) -> bool {
        self.active
    }
}

impl HotkeyState {
    /// Not running.
    pub fn new() -> (s: Self)
        ensures
            !s@,
    {
        HotkeyState { active: false }
    }

    /// Start the listener; returns whether a listener thread must be started
    /// (false when it already runs: starting is idempotent).
    pub fn start(&mut self) -> (spawn: bool)
        ensures
            spawn == !old(self)@,
            final(self)@,
    {
        if self.active {
            return false;
        }
        self.active = true;
        true
    }

    /// Stop the listener. Safe to call even if not running.
    pub fn stop(&mut self)
        ensures
            !final(self)@,
    {
        self.active = false;
    }

    /// Whether the hotkey listener is currently active.
    pub fn is_active(&self) -> (b: bool)
        ensures
            b == self@,
    {
        self.active
    }
}

/// Two presses closer than this (ms) are a double click.
pub const DOUBLE_CLICK_MS: u64 = 400;

/// The VR controller listener: whether it runs, whether the VR runtime is up,
/// and the time of the last button press.
pub struct VrListener {
    running: bool,
    active: bool,
    last_press_ms: Option<u64>,
}

/// What a [`VrListener`] holds, as plain values.
pub struct VrListenerView {
    pub running: bool,
    pub active: bool,
    pub last_press_ms: Option<u64>,
}

impl View for VrListener {
    type V = VrListenerView;

    closed spec fn view(&self) -> VrListenerView {
        VrListenerView { running: self.running, active: self.active, last_press_ms: self.last_press_ms }
    }
}

/// A press at `now` follows the previous one within the double-click time.
pub open spec fn is_double_click(last: Option<u64>, now: u64) -> bool {
    match last {
        Some(t) => (if now >= t { now - t } else { 0 }) < DOUBLE_CLICK_MS,
        None => false,
    }
}

impl VrListener {
    /// Not running, no press seen.
    pub fn new() -> (s: Self)
        ensures
            s@ == (VrListenerView { running: false, active: false, last_press_ms: None }),
    {
        VrListener { running: false, active: false, last_press_ms: None }
    }

    /// Start polling; returns whether a polling thread must be started (false
    /// when it already runs).
    pub fn start_controller_listener(&mut self) -> (spawn: bool)
        ensures
            spawn == !old(self)@.running,
            final(self)@ == (VrListenerView { running: true, ..old(self)@ }),
    {
        let was = self.running;
        self.running = true;
        !was
    }

    /// The VR runtime started (`ok`) or could not be set up (the listener ends).
    pub fn runtime_started(&mut self, ok: bool)
        ensures
            ok ==> final(self)@ == (VrListenerView { active: true, ..old(self)@ }),
            !ok ==> final(self)@ == (VrListenerView { running: false, ..old(self)@ }),
    {
        if ok {
            self.active = true;
        } else {
            self.running = false;
        }
    }

    /// A toggle button reading at `now_ms`: a new press (pressed and changed)
    /// is remembered, and a press soon after the previous one is a double
    /// click, which toggles recording. Returns whether to toggle.
    pub fn on_button(&mut self, pressed: bool, changed: bool, now_ms: u64) -> (toggle: bool)
        ensures
            pressed && changed ==> toggle == is_double_click(old(self)@.last_press_ms, now_ms)
                && final(self)@ == (VrListenerView { last_press_ms: Some(now_ms), ..old(self)@ }),
            !(pressed && changed) ==> !toggle && final(self)@ == old(self)@,
    {
        if !(pressed && changed) {
            return false;
        }
        let double = match self.last_press_ms {
            Some(t) => {
                let elapsed: u64 = if now_ms >= t { now_ms - t } else { 0 };
                elapsed < DOUBLE_CLICK_MS
            },
            None => false,
        };
        self.last_press_ms = Some(now_ms);
        double
    }

    /// Whether polling should go on.
    pub fn is_running(&self) -> (b: bool)
        ensures
            b == self@.running,
    {
        self.running
    }

    /// Stop the VR controller listener.
    pub fn stop_controller_listener(&mut self)
        ensures
            final(self)@ == (VrListenerView { running: false, ..old(self)@ }),
    {
        self.running = false;
    }

    /// The polling loop ended: the runtime is no longer up.
    pub fn listener_exited(&mut self)
        ensures
            final(self)@ == (VrListenerView { active: false, ..old(self)@ }),
    {
        self.active = false;
    }

    /// Whether the VR controller listener is currently active.
    pub fn is_vr_active(&self) -> (b: bool)
        ensures
            b == self@.active,
    {
        self.active
    }
}

/// Where the overlay pipe server is in its protocol: create a pipe, wait for
/// the HUD, send `hello`, read its answer, send the configuration if one was
/// set, then send the overlay state about every 33 ms until stopped, when it
/// sends `bye` and closes the pipe.
#[derive(Clone, Copy, Debug, PartialEq, Eq, Structural)]
pub enum PipePhase {
    /// At the top of the serving loop: a new pipe is made while running.
    Start,
    /// A pipe is being created.
    Creating,
    /// Waiting for the HUD to connect.
    Connecting,
    /// `hello` is being written.
    Greeting,
    /// Waiting for the HUD's answer to `hello`.
    Answering,
    /// The configuration is being written.
    Configuring,
    /// In the data loop, before the next frame.
    Serving,
    /// A data frame is being written.
    Writing,
    /// `bye` is being written.
    Closing,
    /// The server thread has ended.
    Stopped,
}

/// What the pipe server does next. Each action is answered by its outcome
/// (`ok`): whether the pipe was created, the HUD connected (already connected
/// counts), a write succeeded, or an answer of at least one byte was read.
/// Pauses, closes and the configuration and `bye` writes are answered too,
/// their outcome being ignored.
#[derive(Clone, Copy, Debug, PartialEq, Eq, Structural)]
pub enum PipeAction {
    /// Create the named pipe.
    CreatePipe,
    /// Wait for the HUD to connect.
    AwaitClient,
    /// Write [`hello_line`].
    SendHello,
    /// Read the HUD's answer (up to 256 bytes).
    ReadReply,
    /// Write the HUD configuration as a line.
    SendConfig,
    /// Write the current overlay state as a line.
    SendData,
    /// Write [`bye_line`].
    SendBye,
    /// Sleep this many milliseconds.
    Pause(u64),
    /// Close the pipe.
    ClosePipe,
    /// Close the pipe, then sleep this many milliseconds.
    ClosePipeAndPause(u64),
    /// The HUD went away: start it again if its process is not running, then
    /// close the pipe.
    RespawnHudAndClose,
    /// The server thread ends.
    Exit,
}

/// The overlay pipe server: whether it should run, where it is in its
/// protocol, and whether a HUD configuration was set.
pub struct OverlayIpc {
    running: bool,
    phase: PipePhase,
    config_set: bool,
}

/// What an [`OverlayIpc`] holds, as plain values.
pub struct OverlayIpcView {
    pub running: bool,
    pub phase: PipePhase,
    pub config_set: bool,
}

impl View for OverlayIpc {
    type V = OverlayIpcView;

    closed spec fn view(&self) -> OverlayIpcView {
        OverlayIpcView { running: self.running, phase: self.phase, config_set: self.config_set }
    }
}

/// In the data loop: `bye` once stopped, otherwise the next frame.
pub open spec fn serve_next(s: OverlayIpcView) -> (OverlayIpcView, PipeAction) {
    if !s.running {
        (OverlayIpcView { phase: PipePhase::Closing, ..s }, PipeAction::SendBye)
    } else {
        (OverlayIpcView { phase: PipePhase::Writing, ..s }, PipeAction::SendData)
    }
}

/// One step of the pipe server: from its state and the outcome of the last
/// action to its next state and action.
pub open spec fn pipe_step(s: OverlayIpcView, ok: bool) -> (OverlayIpcView, PipeAction) {
    match s.phase {
        PipePhase::Start => if s.running {
            (OverlayIpcView { phase: PipePhase::Creating, ..s }, PipeAction::CreatePipe)
        } else {
            (OverlayIpcView { phase: PipePhase::Stopped, ..s }, PipeAction::Exit)
        },
        PipePhase::Creating => if ok {
            (OverlayIpcView { phase: PipePhase::Connecting, ..s }, PipeAction::AwaitClient)
        } else {
            (OverlayIpcView { phase: PipePhase::Start, ..s }, PipeAction::Pause(2000))
        },
        PipePhase::Connecting => if ok {
            (OverlayIpcView { phase: PipePhase::Greeting, ..s }, PipeAction::SendHello)
        } else {
            (OverlayIpcView { phase: PipePhase::Start, ..s }, PipeAction::ClosePipeAndPause(2000))
        },
        PipePhase::Greeting => if ok {
            (OverlayIpcView { phase: PipePhase::Answering, ..s }, PipeAction::ReadReply)
        } else {
            (OverlayIpcView { phase: PipePhase::Start, ..s }, PipeAction::ClosePipe)
        },
        PipePhase::Answering => if !ok {
            (OverlayIpcView { phase: PipePhase::Start, ..s }, PipeAction::ClosePipe)
        } else if s.config_set {
            (OverlayIpcView { phase: PipePhase::Configuring, ..s }, PipeAction::SendConfig)
        } else {
            serve_next(s)
        },
        PipePhase::Configuring => serve_next(s),
        PipePhase::Serving => serve_next(s),
        PipePhase::Writing => if ok {
            (OverlayIpcView { phase: PipePhase::Serving, ..s }, PipeAction::Pause(33))
        } else {
            (OverlayIpcView { phase: PipePhase::Start, ..s }, PipeAction::RespawnHudAndClose)
        },
        PipePhase::Closing => (OverlayIpcView { phase: PipePhase::Start, ..s }, PipeAction::ClosePipe),
        PipePhase::Stopped => (s, PipeAction::Exit),
    }
}

impl OverlayIpc {
    /// Not running, no configuration set.
    pub fn new() -> (s: Self)
        ensures
            s@ == (OverlayIpcView { running: false, phase: PipePhase::Stopped, config_set: false }),
    {
        OverlayIpc { running: false, phase: PipePhase::Stopped, config_set: false }
    }

    /// Start the pipe server; returns whether its thread must be started.
    /// Starting a running server changes nothing; otherwise the server thread
    /// begins at the top of its loop.
    pub fn start_overlay_ipc(&mut self) -> (spawn: bool)
        ensures
            spawn == !old(self)@.running,
            old(self)@.running ==> final(self)@ == old(self)@,
            !old(self)@.running ==> final(self)@ == (OverlayIpcView {
                running: true,
                phase: PipePhase::Start,
                ..old(self)@
            }),
    {
        if self.running {
            return false;
        }
        self.running = true;
        self.phase = PipePhase::Start;
        true
    }

    /// Stop the overlay pipe server: only the running flag is cleared; the
    /// serving loop then says `bye` to the HUD and closes the pipe
    /// (see [`pipe_step`]).
    pub fn stop_overlay_ipc(&mut self)
        ensures
            final(self)@ == (OverlayIpcView { running: false, ..old(self)@ }),
    {
        self.running = false;
    }

    /// A HUD configuration was set; it is sent after each handshake. (Its
    /// values are numbers of the renderer and are kept by the caller.)
    pub fn set_hud_config(&mut self)
        ensures
            final(self)@ == (OverlayIpcView { config_set: true, ..old(self)@ }),
    {
        self.config_set = true;
    }

    /// Whether the server should keep serving.
    pub fn is_running(&self) -> (b: bool)
        ensures
            b == self@.running,
    {
        self.running
    }

    /// Where the server is in its protocol.
    pub fn phase(&self) -> (p: PipePhase)
        ensures
            p == self@.phase,
    {
        self.phase
    }

    /// The last action ended with outcome `ok`: move on and return the next action.
    pub fn step(&mut self, ok: bool) -> (a: PipeAction)
        ensures
            (final(self)@, a) == pipe_step(old(self)@, ok),
    {
        let (phase, a) = match self.phase {
            PipePhase::Start => if self.running {
                (PipePhase::Creating, PipeAction::CreatePipe)
            } else {
                (PipePhase::Stopped, PipeAction::Exit)
            },
            PipePhase::Creating => if ok {
                (PipePhase::Connecting, PipeAction::AwaitClient)
            } else {
                (PipePhase::Start, PipeAction::Pause(2000))
            },
            PipePhase::Connecting => if ok {
                (PipePhase::Greeting, PipeAction::SendHello)
            } else {
                (PipePhase::Start, PipeAction::ClosePipeAndPause(2000))
            },
            PipePhase::Greeting => if ok {
                (PipePhase::Answering, PipeAction::ReadReply)
            } else {
                (PipePhase::Start, PipeAction::ClosePipe)
            },
            PipePhase::Answering => if !ok {
                (PipePhase::Start, PipeAction::ClosePipe)
            } else if self.config_set {
                (PipePhase::Configuring, PipeAction::SendConfig)
            } else if !self.running {
                (PipePhase::Closing, PipeAction::SendBye)
            } else {
                (PipePhase::Writing, PipeAction::SendData)
            },
            PipePhase::Configuring | PipePhase::Serving => if !self.running {
                (PipePhase::Closing, PipeAction::SendBye)
            } else {
                (PipePhase::Writing, PipeAction::SendData)
            },
            PipePhase::Writing => if ok {
                (PipePhase::Serving, PipeAction::Pause(33))
            } else {
                (PipePhase::Start, PipeAction::RespawnHudAndClose)
            },
            PipePhase::Closing => (PipePhase::Start, PipeAction::ClosePipe),
            PipePhase::Stopped => (PipePhase::Stopped, PipeAction::Exit),
        };
        self.phase = phase;
        a
    }
}

/// The handshake greeting: `{"type":"hello"}` and a newline.
pub open spec fn hello_bytes() -> Seq<u8> {
    encode_utf8("{\"type\":\"hello\"}"@).push(0x0a)
}

/// The farewell: `{"type":"bye"}` and a newline.
pub open spec fn bye_bytes() -> Seq<u8> {
    encode_utf8("{\"type\":\"bye\"}"@).push(0x0a)
}

/// The line written for [`PipeAction::SendHello`].
pub fn hello_line() -> (r: Vec<u8>)
    ensures
        r@ == hello_bytes(),
{
    frame_message("{\"type\":\"hello\"}")
}

/// The line written for [`PipeAction::SendBye`].
pub fn bye_line() -> (r: Vec<u8>)
    ensures
        r@ == bye_bytes(),
{
    frame_message("{\"type\":\"bye\"}")
}

/// The HUD answered the handshake: its reply contains `"ack"` (with the quotes).
pub open spec fn is_ack(reply: Seq<char>) -> bool {
    contains_seq(reply, seq!['"', 'a', 'c', 'k', '"'])
}

/// Whether a handshake reply acknowledges the hello.
pub fn handshake_acknowledged(reply: &str) -> (b: bool)
    ensures
        b == is_ack(reply@),
{
    let v = chars_of(reply);
    let mut pat: Vec<char> = Vec::new();
    pat.push('"');
    pat.push('a');
    pat.push('c');
    pat.push('k');
    pat.push('"');
    proof {
        assert(pat@ =~= seq!['"', 'a', 'c', 'k', '"']);
    }
    contains_chars(v.as_slice(), pat.as_slice())
}

/// A pipe message: the JSON text's bytes and a newline.
pub fn frame_message(json: &str) -> (r: Vec<u8>)
    ensures
        r@ == encode_utf8(json@).push(0x0a),
{
    let b = json.as_bytes();
    let mut r: Vec<u8> = Vec::new();
    let mut i: usize = 0;
    while i < b.len()
        invariant
            i <= b@.len(),
            r@ == b@.take(i as int),
        decreases b@.len() - i,
    {
        r.push(b[i]);
        proof {
            assert(b@.take(i + 1) =~= b@.take(i as int).push(b@[i as int]));
        }
        i = i + 1;
    }
    proof {
        assert(b@.take(i as int) =~= b@);
    }
    r.push(0x0a);
    r
}

/// The kinds of overlay messages the HUD receives.
#[derive(Debug, PartialEq, Eq, Structural)]
pub enum HudEventKind {
    /// The server greets: answer with an ack.
    Connected,
    /// The server closes: the HUD exits.
    Bye,
    /// Display settings.
    Config,
    /// A state update.
    Data,
}

/// The kind of a message by its `type` field.
pub fn hud_event_kind(msg_type: &str) -> (k: HudEventKind)
    ensures
        k == if msg_type@ == "hello"@ {
            HudEventKind::Connected
        } else if msg_type@ == "bye"@ {
            HudEventKind::Bye
        } else if msg_type@ == "config"@ {
            HudEventKind::Config
        } else {
            HudEventKind::Data
        },
{
    if str_eq(msg_type, "hello") {
        HudEventKind::Connected
    } else if str_eq(msg_type, "bye") {
        HudEventKind::Bye
    } else if str_eq(msg_type, "config") {
        HudEventKind::Config
    } else {
        HudEventKind::Data
    }
}

/// Scanning `data`: the completed non-empty lines and the line in progress.
pub open spec fn line_scan(data: Seq<u8>) -> (Seq<Seq<u8>>, Seq<u8>)
    decreases data.len(),
{
    if data.len() == 0 {
        (Seq::empty(), Seq::empty())
    } else {
        let (lines, cur) = line_scan(data.drop_last());
        if data.last() == 0x0a {
            (if cur.len() > 0 { lines.push(cur) } else { lines }, Seq::empty())
        } else {
            (lines, cur.push(data.last()))
        }
    }
}

/// The non-empty newline-separated lines of a pipe read.
pub open spec fn split_lines(data: Seq<u8>) -> Seq<Seq<u8>> {
    let (lines, cur) = line_scan(data);
    if cur.len() > 0 {
        lines.push(cur)
    } else {
        lines
    }
}

/// Split a pipe read into its non-empty lines.
pub fn split_lines_exec(data: &[u8]) -> (r: Vec<Vec<u8>>)
    ensures
        r@.map_values(|l: Vec<u8>| l@) == split_lines(data@),
{
    let mut lines: Vec<Vec<u8>> = Vec::new();
    let mut cur: Vec<u8> = Vec::new();
    let mut i: usize = 0;
    while i < data.len()
        invariant
            i <= data@.len(),
            (lines@.map_values(|l: Vec<u8>| l@), cur@) == line_scan(data@.take(i as int)),
        decreases data@.len() - i,
    {
        proof {
            assert(data@.take(i + 1).drop_last() =~= data@.take(i as int));
            assert(data@.take(i + 1).last() == data@[i as int]);
        }
        if data[i] == 0x0a {
            if cur.len() > 0 {
                let ghost l0 = lines@;
                let mut done: Vec<u8> = Vec::new();
                std::mem::swap(&mut done, &mut cur);
                lines.push(done);
                proof {
                    assert(lines@.map_values(|l: Vec<u8>| l@) =~= l0.map_values(|l: Vec<u8>| l@).push(done@));
                }
            }
            proof {
                assert(cur@ =~= Seq::<u8>::empty());
            }
        } else {
            cur.push(data[i]);
        }
        i = i + 1;
    }
    proof {
        assert(data@.take(i as int) =~= data@);
    }
    if cur.len() > 0 {
        let ghost l0 = lines@;
        lines.push(cur);
        proof {
            assert(lines@.map_values(|l: Vec<u8>| l@) =~= l0.map_values(|l: Vec<u8>| l@).push(cur@));
        }
    }
    lines
}

/// The HUD's time to wait before the next connection attempt: doubled, at most 16 s.
pub fn next_reconnect_ms(current: u64) -> (r: u64)
    requires
        current <= u64::MAX / 2,
    ensures
        r == if current * 2 < 16000 { current * 2 } else { 16000 },
{
    let d = current * 2;
    if d < 16000 { d } else { 16000 }
}

/// The HUD may run: it has the same elevation as the VR server process, or
/// that process is not running (`None`).
pub fn elevation_matches(self_elevated: bool, steamvr_elevated: Option<bool>) -> (b: bool)
    ensures
        b == match steamvr_elevated {
            Some(v) => v == self_elevated,
            None => true,
        },
{
    match steamvr_elevated {
        Some(v) => v == self_elevated,
        None => true,
    }
}

} // verus!

verus! {

/// Polls of 100 ms that the HUD companion is given to exit after `bye` (15 s).
pub const HUD_EXIT_POLLS: u32 = 150;

/// Whether the HUD companion process was started and not yet stopped.
pub struct HudProcess {
    running: bool,
}

impl View for HudProcess {
    type V = bool;

    closed spec fn view(&self) -> bool {
        self.running
    }
}

impl HudProcess {
    /// No companion process.
    pub fn new() -> (s: Self)
        ensures
            !s@,
    {
        HudProcess { running: false }
    }

    /// A companion process was started.
    pub fn spawned(&mut self)
        ensures
            final(self)@,
    {
        self.running = true;
    }

    /// Stop the companion: returns whether there was one (it is then asked to
    /// leave with `bye` and awaited); afterwards none is recorded.
    pub fn kill(&mut self) -> (had: bool)
        ensures
            had == old(self)@,
            !final(self)@,
    {
        let had = self.running;
        self.running = false;
        had
    }

    /// Whether the companion process is still running: one was started and not
    /// stopped, and it has not exited on its own (`exited` is what waiting on
    /// the child without blocking reports).
    pub fn is_running(&self, exited: bool) -> (b: bool)
        ensures
            b == (self@ && !exited),
    {
        self.running && !exited
    }
}

} // verus!

verus! {

/// The virtual-key code of the recording toggle key (F10).
pub const VK_TOGGLE: u32 = 0x79;

/// The window message of a registered hotkey (`WM_HOTKEY`).
pub const WM_HOTKEY: u32 = 0x0312;

/// A message of the hotkey loop toggles recording: it is `WM_HOTKEY` for the
/// hotkey registered with id 1.
pub fn is_toggle_hotkey(message: u32, wparam: usize) -> (b: bool)
    ensures
        b == (message == WM_HOTKEY && wparam == 1),
{
    message == WM_HOTKEY && wparam == 1
}

} // verus!

//! Application settings: their defaults, the credentials taken from the
//! environment, and what a change of settings starts or stops.
use vstd::prelude::*;
use crate::text::{str_eq, str_is_empty};

verus! {

/// Application configuration, stored in `config.yaml`; credentials may come from `.env`.
#[derive(Clone, Debug)]
pub struct AppConfig {
    // ---- recognizer ----
    pub asr_provider: String,
    pub asr_backend: String,
    pub onnx_provider: String,
    pub local_stt_url: String,
    pub stt_config_path: String,
    // ---- cloud credentials ----
    pub tencent_app_id: String,
    pub tencent_secret_id: String,
    pub tencent_secret_key: String,
    // ---- chatbox ----
    pub osc_enabled: bool,
    pub osc_host: String,
    pub osc_port: u16,
    pub osc_line_count: usize,
    pub osc_retention_secs: u64,
    pub osc_remove_period: bool,
    // ---- trigger listener ----
    pub trigger_listener_enabled: bool,
    pub trigger_stt_provider: String,
    pub trigger_start: String,
    pub trigger_stop: String,
    // ---- hotkey ----
    pub global_hotkey_enabled: bool,
}

impl Default for AppConfig {
    fn default() -> (c: Self)
        ensures
            c.asr_provider@ == "local_embedded"@,
            c.asr_backend@ == "sherpa-onnx"@,
            c.onnx_provider@ == "cpu"@,
            c.local_stt_url@ == "ws://192.168.101.7:8765"@,
            c.stt_config_path@ == "stt-config.yaml"@,
            c.tencent_app_id@ == Seq::<char>::empty(),
            c.tencent_secret_id@ == Seq::<char>::empty(),
            c.tencent_secret_key@ == Seq::<char>::empty(),
            c.osc_enabled,
            c.osc_host@ == "127.0.0.1"@,
            c.osc_port == 9000,
            c.osc_line_count == 2,
            c.osc_retention_secs == 5,
            c.osc_remove_period,
            !c.trigger_listener_enabled,
            c.trigger_stt_provider@ == "local"@,
            c.trigger_start@ == "\u{5f00}\u{59cb}\u{8bed}\u{97f3}\u{8bc6}\u{522b}"@,
            c.trigger_stop@ == "\u{505c}\u{6b62}\u{8bed}\u{97f3}\u{8bc6}\u{522b}"@,
            c.global_hotkey_enabled,
    {
        AppConfig {
            asr_provider: String::from_str("local_embedded"),
            asr_backend: String::from_str("sherpa-onnx"),
            onnx_provider: String::from_str("cpu"),
            local_stt_url: String::from_str("ws://192.168.101.7:8765"),
            stt_config_path: String::from_str("stt-config.yaml"),
            tencent_app_id: String::new(),
            tencent_secret_id: String::new(),
            tencent_secret_key: String::new(),
            osc_enabled: true,
            osc_host: String::from_str("127.0.0.1"),
            osc_port: 9000,
            osc_line_count: 2,
            osc_retention_secs: 5,
            osc_remove_period: true,
            trigger_listener_enabled: false,
            trigger_stt_provider: String::from_str("local"),
            trigger_start: String::from_str("\u{5f00}\u{59cb}\u{8bed}\u{97f3}\u{8bc6}\u{522b}"),
            trigger_stop: String::from_str("\u{505c}\u{6b62}\u{8bed}\u{97f3}\u{8bc6}\u{522b}"),
            global_hotkey_enabled: true,
        }
    }
}

/// A credential from the file, or else the one from the environment.
pub open spec fn credential(from_file: Seq<char>, from_env: Option<String>) -> Seq<char> {
    if from_file.len() == 0 && from_env is Some {
        from_env->0@
    } else {
        from_file
    }
}

fn fill_credential(field: &mut String, env: Option<String>)
    ensures
        final(field)@ == credential(old(field)@, env),
{
    if str_is_empty(field.as_str()) {
        match env {
            Some(v) => {
                *field = v;
            },
            None => {},
        }
    }
}

/// Whether the trigger listener has a recognizer to use: the embedded one, or a server URL.
pub open spec fn listener_has_recognizer(provider: Seq<char>, local_url: Seq<char>) -> bool {
    provider == "local_embedded"@ || local_url.len() > 0
}

impl AppConfig {
    /// Fill credentials missing from the file with those of the environment
    /// (`TENCENT_APP_ID`, `TENCENT_SECRET_ID`, `TENCENT_SECRET_KEY`); a
    /// credential set in the file is kept.
    pub fn apply_env_credentials(
        &mut self,
        app_id: Option<String>,
        secret_id: Option<String>,
        secret_key: Option<String>,
    )
        ensures
            final(self).tencent_app_id@ == credential(old(self).tencent_app_id@, app_id),
            final(self).tencent_secret_id@ == credential(old(self).tencent_secret_id@, secret_id),
            final(self).tencent_secret_key@ == credential(old(self).tencent_secret_key@, secret_key),
            final(self).asr_provider == old(self).asr_provider,
            final(self).local_stt_url == old(self).local_stt_url,
            final(self).trigger_stt_provider == old(self).trigger_stt_provider,
            final(self).trigger_listener_enabled == old(self).trigger_listener_enabled,
            final(self).osc_host == old(self).osc_host,
            final(self).osc_port == old(self).osc_port,
    {
        fill_credential(&mut self.tencent_app_id, app_id);
        fill_credential(&mut self.tencent_secret_id, secret_id);
        fill_credential(&mut self.tencent_secret_key, secret_key);
    }

    /// Whether the trigger listener should run: enabled, with a recognizer to use.
    pub fn trigger_listener_wanted(&self) -> (b: bool)
        ensures
            b == (self.trigger_listener_enabled && listener_has_recognizer(
                self.trigger_stt_provider@,
                self.local_stt_url@,
            )),
    {
        self.trigger_listener_enabled && (str_eq(self.trigger_stt_provider.as_str(), "local_embedded")
            || !str_is_empty(self.local_stt_url.as_str()))
    }

    /// Whether all three cloud credentials are set.
    pub fn has_tencent_credentials(&self) -> (b: bool)
        ensures
            b == (self.tencent_app_id@.len() > 0 && self.tencent_secret_id@.len() > 0
                && self.tencent_secret_key@.len() > 0),
    {
        !str_is_empty(self.tencent_app_id.as_str()) && !str_is_empty(self.tencent_secret_id.as_str())
            && !str_is_empty(self.tencent_secret_key.as_str())
    }
}

/// Start, stop, or leave a background service as it is.
#[derive(Debug, PartialEq, Eq, Structural)]
pub enum ServiceChange {
    Start,
    Stop,
    Keep,
}

/// What saving new settings starts or stops.
pub struct ConfigChange {
    pub hotkey: ServiceChange,
    pub trigger: ServiceChange,
}

/// The hotkey change for an old and a new switch.
pub open spec fn hotkey_change(was: bool, now: bool) -> ServiceChange {
    if now && !was {
        ServiceChange::Start
    } else if !now && was {
        ServiceChange::Stop
    } else {
        ServiceChange::Keep
    }
}

/// The trigger-listener change: it starts only when it has a recognizer to use.
pub open spec fn trigger_change(was: bool, now: bool, has_recognizer: bool) -> ServiceChange {
    if now && !was {
        if has_recognizer {
            ServiceChange::Start
        } else {
            ServiceChange::Keep
        }
    } else if !now && was {
        ServiceChange::Stop
    } else {
        ServiceChange::Keep
    }
}

/// What saving `new` in place of `old` (none before the first save) starts or stops.
pub fn config_change(old: Option<&AppConfig>, new: &AppConfig) -> (c: ConfigChange)
    ensures
        ({
            let hotkey_was = old is Some && old->0.global_hotkey_enabled;
            let trigger_was = old is Some && old->0.trigger_listener_enabled;
            &&& c.hotkey == hotkey_change(hotkey_was, new.global_hotkey_enabled)
            &&& c.trigger == trigger_change(
                trigger_was,
                new.trigger_listener_enabled,
                listener_has_recognizer(new.trigger_stt_provider@, new.local_stt_url@),
            )
        }),
{
    let (hotkey_was, trigger_was) = match old {
        Some(c) => (c.global_hotkey_enabled, c.trigger_listener_enabled),
        None => (false, false),
    };
    let hotkey = if new.global_hotkey_enabled && !hotkey_was {
        ServiceChange::Start
    } else if !new.global_hotkey_enabled && hotkey_was {
        ServiceChange::Stop
    } else {
        ServiceChange::Keep
    };
    let trigger = if new.trigger_listener_enabled && !trigger_was {
        if str_eq(new.trigger_stt_provider.as_str(), "local_embedded") || !str_is_empty(
            new.local_stt_url.as_str(),
        ) {
            ServiceChange::Start
        } else {
            ServiceChange::Keep
        }
    } else if !new.trigger_listener_enabled && trigger_was {
        ServiceChange::Stop
    } else {
        ServiceChange::Keep
    };
    ConfigChange { hotkey, trigger }
}

} // verus!

//! Audio setup decisions for WSL2: detection, the PulseAudio latency hint,
//! and the managed ALSA configuration file.

use vstd::prelude::*;

use crate::text::{contains_seq, occurs_at, parse_unsigned, parse_unsigned_text, str_contains, trim_text, trimmed};

verus! {

/// Whether a kernel version text (`/proc/version`) is that of WSL.
pub open spec fn is_wsl_version(text: Seq<char>) -> bool {
    contains_seq(text, "microsoft"@) || contains_seq(text, "WSL"@)
}

/// Detects WSL from the kernel version text.
pub fn is_wsl_kernel(version_text: &str) -> (r: bool)
    ensures
        r == is_wsl_version(version_text@),
{
    str_contains(version_text, "microsoft") || str_contains(version_text, "WSL")
}

/// PulseAudio latency used on WSL2 when nothing else is set (ms).
pub const DEFAULT_PULSE_LATENCY_MSEC: u32 = 150;

/// Smallest supported PulseAudio latency (ms).
pub const MIN_PULSE_LATENCY_MSEC: u32 = 50;

/// Largest supported PulseAudio latency (ms).
pub const MAX_PULSE_LATENCY_MSEC: u32 = 2000;

/// Where the latency setting came from.
#[derive(Debug, Clone, Copy, PartialEq, Eq, Structural)]
pub enum LatencySource {
    Env,
    Config,
    Default,
}

/// The PulseAudio latency to configure.
#[derive(Debug, Clone, Copy, PartialEq, Eq, Structural)]
pub struct LatencyChoice {
    /// The value asked for.
    pub requested: u32,
    /// The value to set: the request limited to the supported range.
    pub latency_msec: u32,
    pub source: LatencySource,
}

/// The latency an environment value asks for, when it is a whole number of
/// milliseconds (surrounding white space allowed).
pub open spec fn env_latency(env_value: Option<Seq<char>>) -> Option<nat> {
    match env_value {
        Some(v) => parse_unsigned(trimmed(v), u32::MAX as nat),
        None => None,
    }
}

/// `v` limited to `lo..=hi`.
pub open spec fn clamp_u32(v: u32, lo: u32, hi: u32) -> u32 {
    if v < lo {
        lo
    } else if v > hi {
        hi
    } else {
        v
    }
}

/// Choose the PulseAudio latency on WSL2. Precedence: a valid
/// `PULSE_LATENCY_MSEC` value from the environment, then the configured
/// value, then 150 ms; the result is limited to 50..=2000 ms.
pub fn pulse_latency(env_value: Option<&str>, config_value: Option<u32>) -> (r: LatencyChoice)
    ensures
        ({
            let env = env_latency(
                match env_value {
                    Some(v) => Some(v@),
                    None => None,
                },
            );
            &&& match env {
                Some(v) => r.requested == v && r.source == LatencySource::Env,
                None => match config_value {
                    Some(c) => r.requested == c && r.source == LatencySource::Config,
                    None => r.requested == DEFAULT_PULSE_LATENCY_MSEC && r.source == LatencySource::Default,
                },
            }
        }),
        r.latency_msec == clamp_u32(r.requested, MIN_PULSE_LATENCY_MSEC, MAX_PULSE_LATENCY_MSEC),
        MIN_PULSE_LATENCY_MSEC <= r.latency_msec <= MAX_PULSE_LATENCY_MSEC,
{
    let env_parsed: Option<u64> = match env_value {
        Some(v) => {
            let t = trim_text(v);
            parse_unsigned_text(t.as_str(), u32::MAX as u64)
        },
        None => None,
    };
    let (requested, source) = match env_parsed {
        Some(v) => (v as u32, LatencySource::Env),
        None => match config_value {
            Some(c) => (c, LatencySource::Config),
            None => (DEFAULT_PULSE_LATENCY_MSEC, LatencySource::Default),
        },
    };
    let latency_msec = if requested < MIN_PULSE_LATENCY_MSEC {
        MIN_PULSE_LATENCY_MSEC
    } else if requested > MAX_PULSE_LATENCY_MSEC {
        MAX_PULSE_LATENCY_MSEC
    } else {
        requested
    };
    LatencyChoice { requested, latency_msec, source }
}

/// The advice added to an audio-device error on WSL2 when the ALSA
/// PulseAudio plugin is missing.
pub open spec fn missing_plugin_advice() -> Seq<char> {
    "\n\nWSL2 audio requires the ALSA PulseAudio plugin.\nInstall it with: sudo apt-get install -y libasound2-plugins\nThen restart the application."@
}

/// The advice added to an audio-device error on WSL2 when the WSLg
/// PulseAudio socket is missing.
pub open spec fn missing_socket_advice() -> Seq<char> {
    "\n\nWSLg PulseAudio socket not found at /mnt/wslg/PulseServer.\nWSLg may not be running. Try restarting WSL with: wsl --shutdown\nThen reopen your terminal and try again."@
}

/// The message of a failure to open the audio device: the device error,
/// followed on WSL2 by advice on the first missing piece (the plugin, then
/// the socket).
pub open spec fn audio_open_error_spec(detail: Seq<char>, on_wsl: bool, has_plugin: bool, has_socket: bool) -> Seq<char> {
    let msg = "Failed to open audio output: "@ + detail;
    if on_wsl && !has_plugin {
        msg + missing_plugin_advice()
    } else if on_wsl && !has_socket {
        msg + missing_socket_advice()
    } else {
        msg
    }
}

/// The message shown when the audio device cannot be opened.
pub fn audio_open_error(detail: &str, on_wsl: bool, has_plugin: bool, has_socket: bool) -> (r: String)
    ensures
        r@ == audio_open_error_spec(detail@, on_wsl, has_plugin, has_socket),
{
    let mut msg = String::from_str("Failed to open audio output: ");
    msg.append(detail);
    if on_wsl && !has_plugin {
        msg.append(
            "\n\nWSL2 audio requires the ALSA PulseAudio plugin.\nInstall it with: sudo apt-get install -y libasound2-plugins\nThen restart the application.",
        );
    } else if on_wsl && !has_socket {
        msg.append(
            "\n\nWSLg PulseAudio socket not found at /mnt/wslg/PulseServer.\nWSLg may not be running. Try restarting WSL with: wsl --shutdown\nThen reopen your terminal and try again.",
        );
    }
    msg
}

/// Marker line of ALSA configuration files written by this program.
pub const ASOUNDRC_MARKER: &'static str = "# Auto-generated by TermTunes";

/// Version line of the current generated ALSA configuration.
pub const ASOUNDRC_VERSION: &'static str = "# termtunes-asoundrc-v3";

/// What to do with `~/.asoundrc`.
#[derive(Debug, Clone, Copy, PartialEq, Eq, Structural)]
pub enum AsoundrcAction {
    /// Write the generated configuration (missing or outdated file).
    Write,
    /// A configuration the user manages: leave it alone.
    KeepUserConfig,
    /// The generated configuration is already current.
    AlreadyCurrent,
}

/// The action for an existing file text (`None`: no file).
pub open spec fn asoundrc_action_spec(existing: Option<Seq<char>>) -> AsoundrcAction {
    match existing {
        None => AsoundrcAction::Write,
        Some(t) => if !contains_seq(t, ASOUNDRC_MARKER@) {
            AsoundrcAction::KeepUserConfig
        } else if contains_seq(t, ASOUNDRC_VERSION@) {
            AsoundrcAction::AlreadyCurrent
        } else {
            AsoundrcAction::Write
        },
    }
}

/// Decide whether to write the ALSA configuration: a missing file is
/// created; a file without the marker is the user's and is kept; a
/// generated file of the current version is kept; an outdated generated
/// file is rewritten.
pub fn asoundrc_action(existing: Option<&str>) -> (r: AsoundrcAction)
    ensures
        r == asoundrc_action_spec(
            match existing {
                Some(t) => Some(t@),
                None => None,
            },
        ),
{
    match existing {
        None => AsoundrcAction::Write,
        Some(t) => if !str_contains(t, ASOUNDRC_MARKER) {
            AsoundrcAction::KeepUserConfig
        } else if str_contains(t, ASOUNDRC_VERSION) {
            AsoundrcAction::AlreadyCurrent
        } else {
            AsoundrcAction::Write
        },
    }
}

/// The part of the generated configuration after the marker line's text.
pub open spec fn asoundrc_after_marker() -> Seq<char> {
    " for WSL2 audio support.\n"@
}

/// The part of the generated configuration after the version line's text.
pub open spec fn asoundrc_body() -> Seq<char> {
    "\n# Routes ALSA audio through PulseAudio (provided by WSLg) with buffer\n# sizes tuned to prevent crackling on WSL2.\n# Delete this file if you want to manage ALSA configuration manually.\n\n# Use PulseAudio plugin with tuned buffer sizes to prevent underruns.\n# The WSLg PulseAudio bridge needs larger buffers than a native setup.\npcm.!default {\n    type pulse\n    hint {\n        show on\n        description \"Default ALSA Output (PulseAudio via WSLg)\"\n    }\n}\n\nctl.!default {\n    type pulse\n}\n"@
}

/// The generated configuration text.
pub open spec fn asoundrc_text() -> Seq<char> {
    ASOUNDRC_MARKER@ + asoundrc_after_marker() + ASOUNDRC_VERSION@ + asoundrc_body()
}

/// The ALSA configuration that routes audio through PulseAudio for WSL2's
/// WSLg audio bridge, headed by the marker and version lines.
pub fn asoundrc_contents() -> (r: String)
    ensures
        r@ == asoundrc_text(),
{
    let mut s = String::from_str(ASOUNDRC_MARKER);
    s.append(" for WSL2 audio support.\n");
    s.append(ASOUNDRC_VERSION);
    s.append("\n# Routes ALSA audio through PulseAudio (provided by WSLg) with buffer\n# sizes tuned to prevent crackling on WSL2.\n# Delete this file if you want to manage ALSA configuration manually.\n\n# Use PulseAudio plugin with tuned buffer sizes to prevent underruns.\n# The WSLg PulseAudio bridge needs larger buffers than a native setup.\npcm.!default {\n    type pulse\n    hint {\n        show on\n        description \"Default ALSA Output (PulseAudio via WSLg)\"\n    }\n}\n\nctl.!default {\n    type pulse\n}\n");
    s
}

/// The generated configuration is recognized as current: once written, it
/// is not rewritten.
pub proof fn lemma_generated_asoundrc_is_current()
    ensures
        asoundrc_action_spec(Some(asoundrc_text())) == AsoundrcAction::AlreadyCurrent,
{
    let t = asoundrc_text();
    let m = ASOUNDRC_MARKER@;
    let v = ASOUNDRC_VERSION@;
    let a = asoundrc_after_marker();
    assert(t.subrange(0, m.len() as int) =~= m);
    assert(occurs_at(t, m, 0));
    let i = (m.len() + a.len()) as int;
    assert(t.subrange(i, i + v.len()) =~= v);
    assert(occurs_at(t, v, i));
}

} // verus!

use vstd::prelude::*;
use crate::text::{decimal, push_decimal, same_text};

verus! {

/// Capture configuration of an engine; fixed once the engine is built.
#[derive(Debug, Clone, Copy, PartialEq, Eq, Structural)]
pub struct AudioConfig {
    pub sample_rate: u32,
    pub channels: u16,
    pub buffer_size: usize,
    pub bit_depth: u16,
}

impl AudioConfig {
    /// A configuration the engine can run with: every size is positive.
    pub open spec fn is_valid(&self) -> bool {
        self.sample_rate > 0 && self.channels > 0 && self.buffer_size > 0
    }

    /// Checks `is_valid`.
    pub fn valid(&self) -> (r: bool)
        ensures
            r == self.is_valid(),
    {
        self.sample_rate > 0 && self.channels > 0 && self.buffer_size > 0
    }
}

impl Default for AudioConfig {
    /// 48 kHz stereo, blocks of 960 frames, 24-bit.
    fn default() -> (r: AudioConfig)
        ensures
            r.sample_rate == 48000,
            r.channels == 2,
            r.buffer_size == 960,
            r.bit_depth == 24,
            r.is_valid(),
    {
        AudioConfig { sample_rate: 48000, channels: 2, buffer_size: 960, bit_depth: 24 }
    }
}

/// What a caller asks of a new stream.
#[derive(Debug, Clone)]
pub struct StreamConfig {
    pub quality: String,
    pub bitrate: u32,
    pub sample_rate: u32,
    pub channels: u16,
}

/// What a caller is told of a stream.
#[derive(Debug, Clone)]
pub struct StreamInfo {
    pub id: String,
    pub status: StreamStatus,
    pub quality: String,
    pub bitrate: u32,
}

/// The state of a stream.
#[derive(Debug, Clone, Copy, PartialEq, Eq, Structural)]
pub enum StreamStatus {
    Live,
    Stopped,
    Paused,
}

/// The names of the input and output devices found.
#[derive(Debug, Clone)]
pub struct AudioDevices {
    pub inputs: Vec<String>,
    pub outputs: Vec<String>,
}

/// The kinds of effect that a caller can add to the chain.
#[derive(Debug, Clone, Copy, PartialEq, Eq, Structural)]
pub enum EffectType {
    Eq,
    Compressor,
    Reverb,
    NoiseGate,
}

/// The name of each effect kind in effect configurations.
pub open spec fn effect_type_name(t: EffectType) -> Seq<char> {
    match t {
        EffectType::Eq => "eq"@,
        EffectType::Compressor => "compressor"@,
        EffectType::Reverb => "reverb"@,
        EffectType::NoiseGate => "noise_gate"@,
    }
}

/// The kind whose configuration name is `name`, if any.
pub open spec fn effect_type_named(name: Seq<char>) -> Option<EffectType> {
    if name == "eq"@ {
        Some(EffectType::Eq)
    } else if name == "compressor"@ {
        Some(EffectType::Compressor)
    } else if name == "reverb"@ {
        Some(EffectType::Reverb)
    } else if name == "noise_gate"@ {
        Some(EffectType::NoiseGate)
    } else {
        None
    }
}

impl EffectType {
    /// The name of this kind in effect configurations.
    pub fn wire_name(&self) -> (r: &'static str)
        ensures
            r@ == effect_type_name(*self),
    {
        match self {
            EffectType::Eq => "eq",
            EffectType::Compressor => "compressor",
            EffectType::Reverb => "reverb",
            EffectType::NoiseGate => "noise_gate",
        }
    }

    /// The kind whose configuration name is `name`, if any.
    pub fn from_wire_name(name: &str) -> (r: Option<EffectType>)
        ensures
            r == effect_type_named(name@),
    {
        if same_text(name, "eq") {
            Some(EffectType::Eq)
        } else if same_text(name, "compressor") {
            Some(EffectType::Compressor)
        } else if same_text(name, "reverb") {
            Some(EffectType::Reverb)
        } else if same_text(name, "noise_gate") {
            Some(EffectType::NoiseGate)
        } else {
            None
        }
    }
}

/// The information returned for a stream that has just gone live.
pub fn live_stream_info(id: String, config: StreamConfig) -> (r: StreamInfo)
    ensures
        r.id == id,
        r.status == StreamStatus::Live,
        r.quality == config.quality,
        r.bitrate == config.bitrate,
{
    StreamInfo { id, status: StreamStatus::Live, quality: config.quality, bitrate: config.bitrate }
}

/// The identifier of a stream started `ms` milliseconds after the Unix epoch.
pub open spec fn stream_id_text(ms: nat) -> Seq<char> {
    "stream_"@ + decimal(ms)
}

/// Builds the identifier of a stream started `ms` milliseconds after the Unix epoch.
pub fn stream_id_from_millis(ms: u128) -> (r: String)
    ensures
        r@ == stream_id_text(ms as nat),
{
    let mut s = String::from_str("stream_");
    push_decimal(&mut s, ms);
    s
}

#[verifier::external_type_specification]
#[verifier::external_body]
pub struct ExSystemTime(std::time::SystemTime);

/// Relies on std's `SystemTime::now`: the system clock's current reading.
#[verifier::external_body]
fn clock_now() -> (r: std::time::SystemTime) {
    std::time::SystemTime::now()
}

/// Relies on std's `SystemTime::duration_since(UNIX_EPOCH)`: `None` when `t`
/// lies before the Unix epoch.
#[verifier::external_body]
fn since_epoch(t: &std::time::SystemTime) -> (r: Option<std::time::Duration>) {
    t.duration_since(std::time::UNIX_EPOCH).ok()
}

/// Relies on std's `Duration::as_millis`: the whole milliseconds of `d`.
#[verifier::external_body]
fn whole_millis(d: &std::time::Duration) -> (r: u128) {
    d.as_millis()
}

/// A stream identifier from the current time; a clock set before the Unix
/// epoch counts as its start.
pub fn generate_stream_id() -> (r: String)
    ensures
        exists|ms: nat| r@ == stream_id_text(ms),
{
    let now = clock_now();
    let ms = match since_epoch(&now) {
        Some(d) => whole_millis(&d),
        None => 0,
    };
    stream_id_from_millis(ms)
}

} // verus!

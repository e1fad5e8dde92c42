use vstd::prelude::*;
use crate::bus::{DistributionBus, Subscriber, BUS_CAPACITY};
use crate::config::AudioConfig;
use crate::effects::{Effect, ZERO};

verus! {

/// The last measured levels, as single-precision bit patterns. `input_level`
/// and `rms` hold the same measure; `output_level` is reserved and stays as
/// it was.
#[derive(Debug, Clone, Copy, PartialEq, Eq, Structural)]
pub struct AudioLevels {
    pub input_level: u32,
    pub output_level: u32,
    pub peak: u32,
    pub rms: u32,
}

impl Default for AudioLevels {
    /// All levels zero.
    fn default() -> (r: AudioLevels)
        ensures
            r == (AudioLevels { input_level: ZERO, output_level: ZERO, peak: ZERO, rms: ZERO }),
    {
        AudioLevels { input_level: ZERO, output_level: ZERO, peak: ZERO, rms: ZERO }
    }
}

/// Why an engine operation failed. The platform's and the codec's own errors
/// arrive as their messages.
#[derive(Debug, Clone)]
pub enum AudioError {
    NoInputDevice,
    NoOutputDevice,
    StreamError(String),
    BuildStreamError(String),
    DefaultStreamConfigError(String),
    OpusError(String),
    DeviceError(String),
}

/// The text that describes an error.
pub open spec fn error_text(e: AudioError) -> Seq<char> {
    match e {
        AudioError::NoInputDevice => "No input device found"@,
        AudioError::NoOutputDevice => "No output device found"@,
        AudioError::StreamError(m) => "Stream error: "@ + m@,
        AudioError::BuildStreamError(m) => "Build stream error: "@ + m@,
        AudioError::DefaultStreamConfigError(m) => "Default stream config error: "@ + m@,
        AudioError::OpusError(m) => "Opus error: "@ + m@,
        AudioError::DeviceError(m) => "Device error: "@ + m@,
    }
}

fn prefixed(prefix: &str, m: &String) -> (r: String)
    ensures
        r@ == prefix@ + m@,
{
    let mut s = String::from_str(prefix);
    s.append(m.as_str());
    s
}

impl AudioError {
    /// The text that describes this error.
    pub fn message(&self) -> (r: String)
        ensures
            r@ == error_text(*self),
    {
        match self {
            AudioError::NoInputDevice => String::from_str("No input device found"),
            AudioError::NoOutputDevice => String::from_str("No output device found"),
            AudioError::StreamError(m) => prefixed("Stream error: ", m),
            AudioError::BuildStreamError(m) => prefixed("Build stream error: ", m),
            AudioError::DefaultStreamConfigError(m) => prefixed("Default stream config error: ", m),
            AudioError::OpusError(m) => prefixed("Opus error: ", m),
            AudioError::DeviceError(m) => prefixed("Device error: ", m),
        }
    }
}

/// What the caller has to do to the capture stream to start capturing.
#[derive(Debug, Clone, Copy, PartialEq, Eq, Structural)]
pub enum CaptureCommand {
    /// Open a stream: none is held.
    Open,
    /// Nothing to do: a stream is already held and keeps running.
    KeepCurrent,
}

/// The command that starts capture, or `None` where there is no input device.
pub open spec fn capture_command(has_input_device: bool, capturing: bool) -> Option<CaptureCommand> {
    if !has_input_device {
        None
    } else if capturing {
        Some(CaptureCommand::KeepCurrent)
    } else {
        Some(CaptureCommand::Open)
    }
}

/// The number of streams an engine holds.
pub open spec fn held_streams(capturing: bool) -> nat {
    if capturing {
        1
    } else {
        0
    }
}

/// The engine's state: devices found, capture state, monitoring flag,
/// effects chain, last levels, and the bus that carries encoded frames.
pub struct AudioEngine {
    has_input_device: bool,
    has_output_device: bool,
    sample_rate: u32,
    channels: u16,
    capturing: bool,
    monitoring_enabled: bool,
    effects_chain: Vec<Effect>,
    current_levels: AudioLevels,
    bus: DistributionBus,
}

impl AudioEngine {
    pub closed spec fn input_present(&self) -> bool {
        self.has_input_device
    }

    pub closed spec fn output_present(&self) -> bool {
        self.has_output_device
    }

    pub closed spec fn rate(&self) -> u32 {
        self.sample_rate
    }

    pub closed spec fn channel_count(&self) -> u16 {
        self.channels
    }

    /// Whether a capture stream is held.
    pub closed spec fn capturing(&self) -> bool {
        self.capturing
    }

    pub closed spec fn monitoring(&self) -> bool {
        self.monitoring_enabled
    }

    /// The effects, in processing order.
    pub closed spec fn chain(&self) -> Seq<Effect> {
        self.effects_chain@
    }

    pub closed spec fn levels(&self) -> AudioLevels {
        self.current_levels
    }

    pub closed spec fn bus_capacity(&self) -> usize {
        self.bus.capacity_spec()
    }

    /// An idle engine for `config`, given which default devices were found;
    /// a missing device is not an error here.
    pub fn new(config: AudioConfig, has_input_device: bool, has_output_device: bool) -> (r:
        AudioEngine)
        ensures
            r.input_present() == has_input_device,
            r.output_present() == has_output_device,
            r.rate() == config.sample_rate,
            r.channel_count() == config.channels,
            !r.capturing(),
            !r.monitoring(),
            r.chain() == Seq::<Effect>::empty(),
            r.levels() == (AudioLevels { input_level: ZERO, output_level: ZERO, peak: ZERO, rms: ZERO }),
            r.bus_capacity() == BUS_CAPACITY,
    {
        AudioEngine {
            has_input_device,
            has_output_device,
            sample_rate: config.sample_rate,
            channels: config.channels,
            capturing: false,
            monitoring_enabled: false,
            effects_chain: Vec::new(),
            current_levels: AudioLevels::default(),
            bus: DistributionBus::new(BUS_CAPACITY),
        }
    }

    pub fn sample_rate(&self) -> (r: u32)
        ensures
            r == self.rate(),
    {
        self.sample_rate
    }

    pub fn channels(&self) -> (r: u16)
        ensures
            r == self.channel_count(),
    {
        self.channels
    }

    pub fn has_output_device(&self) -> (r: bool)
        ensures
            r == self.output_present(),
    {
        self.has_output_device
    }

    pub fn is_capturing(&self) -> (r: bool)
        ensures
            r == self.capturing(),
    {
        self.capturing
    }

    /// What starting capture takes: `NoInputDevice` where no input device was
    /// found, else the stream command to carry out.
    pub fn start_capture(&self) -> (r: Result<CaptureCommand, AudioError>)
        ensures
            match capture_command(self.input_present(), self.capturing()) {
                Some(c) => r == Ok::<CaptureCommand, AudioError>(c),
                None => r matches Err(AudioError::NoInputDevice),
            },
    {
        if !self.has_input_device {
            Err(AudioError::NoInputDevice)
        } else if self.capturing {
            Ok(CaptureCommand::KeepCurrent)
        } else {
            Ok(CaptureCommand::Open)
        }
    }

    /// Records how carrying out `Open` ended: whether a stream is now open.
    pub fn capture_started(&mut self, opened: bool)
        requires
            !old(self).capturing(),
        ensures
            final(self).capturing() == opened,
            final(self).input_present() == old(self).input_present(),
            final(self).chain() == old(self).chain(),
            final(self).levels() == old(self).levels(),
            final(self).monitoring() == old(self).monitoring(),
    {
        self.capturing = opened;
    }

    /// Stops capture; returns whether a stream was held and must be released.
    /// Stopping an idle engine does nothing.
    pub fn stop_capture(&mut self) -> (released: bool)
        ensures
            released == old(self).capturing(),
            !final(self).capturing(),
            final(self).input_present() == old(self).input_present(),
            final(self).chain() == old(self).chain(),
            final(self).levels() == old(self).levels(),
            final(self).monitoring() == old(self).monitoring(),
    {
        let released = self.capturing;
        self.capturing = false;
        released
    }

    /// Appends `effect` to the end of the chain.
    pub fn add_effect(&mut self, effect: Effect)
        ensures
            final(self).chain() == old(self).chain().push(effect),
            final(self).capturing() == old(self).capturing(),
            final(self).levels() == old(self).levels(),
            final(self).monitoring() == old(self).monitoring(),
            final(self).input_present() == old(self).input_present(),
    {
        self.effects_chain.push(effect);
    }

    /// Empties the chain.
    pub fn clear_effects(&mut self)
        ensures
            final(self).chain() == Seq::<Effect>::empty(),
            final(self).capturing() == old(self).capturing(),
            final(self).levels() == old(self).levels(),
            final(self).monitoring() == old(self).monitoring(),
            final(self).input_present() == old(self).input_present(),
    {
        self.effects_chain.clear();
    }

    /// The effects, in processing order.
    pub fn effects(&self) -> (r: &Vec<Effect>)
        ensures
            r@ == self.chain(),
    {
        &self.effects_chain
    }

    /// The most recent levels.
    pub fn get_current_levels(&self) -> (r: AudioLevels)
        ensures
            r == self.levels(),
    {
        self.current_levels
    }

    /// Records the levels measured on a processed block: `rms` as input level
    /// and as RMS, and `peak`.
    pub fn record_levels(&mut self, peak: u32, rms: u32)
        ensures
            final(self).levels() == (AudioLevels {
                input_level: rms,
                output_level: old(self).levels().output_level,
                peak,
                rms,
            }),
            final(self).chain() == old(self).chain(),
            final(self).capturing() == old(self).capturing(),
            final(self).monitoring() == old(self).monitoring(),
            final(self).input_present() == old(self).input_present(),
    {
        self.current_levels.input_level = rms;
        self.current_levels.peak = peak;
        self.current_levels.rms = rms;
    }

    pub fn set_monitoring(&mut self, enabled: bool)
        ensures
            final(self).monitoring() == enabled,
            final(self).chain() == old(self).chain(),
            final(self).capturing() == old(self).capturing(),
            final(self).levels() == old(self).levels(),
            final(self).input_present() == old(self).input_present(),
    {
        self.monitoring_enabled = enabled;
    }

    pub fn is_monitoring(&self) -> (r: bool)
        ensures
            r == self.monitoring(),
    {
        self.monitoring_enabled
    }

    /// A new subscriber to the encoded frames, reading from the next one
    /// published.
    pub fn subscribe_to_audio(&self) -> Subscriber {
        self.bus.subscribe()
    }

    /// Hands an encoded frame to every subscriber; returns how many there were.
    pub fn publish_frame(&self, frame: Vec<u8>) -> usize {
        self.bus.publish(frame)
    }
}

/// Starting capture never opens a second stream: `Open` comes only from an
/// engine that holds none, so after `capture_started` it holds at most one.
pub proof fn law_at_most_one_stream(e0: AudioEngine, e1: AudioEngine, opened: bool)
    requires
        capture_command(e0.input_present(), e0.capturing()) == Some(CaptureCommand::Open),
        e1.capturing() == opened,
    ensures
        held_streams(e0.capturing()) == 0,
        held_streams(e1.capturing()) <= 1,
{
}

/// A start on an engine that already captures is a no-op that keeps the
/// running stream.
pub proof fn law_start_while_capturing_keeps_stream(e: AudioEngine)
    requires
        e.input_present(),
        e.capturing(),
    ensures
        capture_command(e.input_present(), e.capturing()) == Some(CaptureCommand::KeepCurrent),
        held_streams(e.capturing()) == 1,
{
}

/// After `stop_capture`, starting again (where an input device is present)
/// opens a stream with none held, and a successful open leaves exactly one.
pub proof fn law_stop_then_start(e0: AudioEngine, e1: AudioEngine, e2: AudioEngine)
    requires
        e0.input_present(),
        !e1.capturing(),
        e1.input_present() == e0.input_present(),
        e2.capturing(),
    ensures
        capture_command(e1.input_present(), e1.capturing()) == Some(CaptureCommand::Open),
        held_streams(e1.capturing()) == 0,
        held_streams(e2.capturing()) == 1,
{
}

} // verus!

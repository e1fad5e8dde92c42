//! Control-plane core of a live audio capture and streaming engine.
//!
//! Sample values and effect parameters are single-precision numbers; this
//! library carries them as their IEEE-754 bit patterns (`u32`) and leaves the
//! arithmetic on them to the caller, while the configuration, parameter,
//! effects-chain, lifecycle and distribution rules are stated and proved here.
pub mod bus;
mod config;
pub mod effects;
pub mod engine;
pub mod laws;
mod mobile;
pub mod params;
pub mod text;

pub use bus::{DistributionBus, Received, Subscriber};
pub use config::{
    generate_stream_id, live_stream_info, stream_id_from_millis, AudioConfig, AudioDevices, EffectType,
    StreamConfig, StreamInfo, StreamStatus,
};
pub use effects::{
    CompressorEffect, EQBand, Effect, EffectParameter, EqualizerEffect, NoiseGateEffect, ReverbEffect,
};
pub use engine::{AudioEngine, AudioError, AudioLevels, CaptureCommand};
pub use mobile::MobileAudioService;
pub use params::EffectParams;

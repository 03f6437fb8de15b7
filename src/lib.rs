//! Streaming voice segmentation: a sample-rate decimator and an energy-based
//! voice-activity detector that cuts a sample stream into utterances, with the
//! bookkeeping that a client of an audio decoder keeps between chunks.
pub mod audio_codec;
pub mod down_sample_rate;
pub mod pcm_sample;
pub mod to_pcm_stream;
pub mod voice_detector;

pub use audio_codec::AudioCodec;
pub use down_sample_rate::DownSampleRate;
pub use pcm_sample::PcmSample;
pub use to_pcm_stream::{FFmpegExecutionResult, ToPcmStream};
pub use voice_detector::{DetectionModel, VoiceDetector};

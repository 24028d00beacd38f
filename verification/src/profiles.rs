use vstd::prelude::*;
use crate::names::string_views;
use crate::text::owned;
use crate::types::{AudioFormat, PixelFormat};

pub use crate::destinations::DestinationConfig;

verus! {

/// How the canvas is scaled to the output size.
#[derive(Clone, Copy, Debug, PartialEq, Eq, Structural)]
pub enum ScaleType {
    Point,
    Bilinear,
    Bicubic,
    Lanczos,
    Area,
}

/// Canvas and output geometry of a profile.
#[derive(Clone, Copy, Debug, PartialEq, Eq, Structural)]
pub struct VideoProfileConfig {
    pub width: u32,
    pub height: u32,
    pub fps_num: u32,
    pub fps_den: u32,
    pub output_width: u32,
    pub output_height: u32,
    pub scale_type: ScaleType,
    pub format: PixelFormat,
}

impl Default for VideoProfileConfig {
    /// 1280x720 canvas and output at 30 fps, bilinear, NV12.
    fn default() -> (r: VideoProfileConfig)
        ensures
            r == (VideoProfileConfig {
                width: 1280,
                height: 720,
                fps_num: 30,
                fps_den: 1,
                output_width: 1280,
                output_height: 720,
                scale_type: ScaleType::Bilinear,
                format: PixelFormat::NV12,
            }),
    {
        VideoProfileConfig {
            width: 1280,
            height: 720,
            fps_num: 30,
            fps_den: 1,
            output_width: 1280,
            output_height: 720,
            scale_type: ScaleType::Bilinear,
            format: PixelFormat::NV12,
        }
    }
}

/// One audio track of a profile.
#[derive(Debug)]
pub struct AudioTrackConfig {
    pub id: u32,
    pub name: String,
    pub sources: Vec<String>,
    pub mixer: bool,
}

impl Clone for AudioTrackConfig {
    fn clone(&self) -> (r: Self)
        ensures
            r.id == self.id,
            r.name@ == self.name@,
            string_views(r.sources@) == string_views(self.sources@),
            r.mixer == self.mixer,
    {
        AudioTrackConfig {
            id: self.id,
            name: self.name.clone(),
            sources: crate::chat::clone_strings(&self.sources),
            mixer: self.mixer,
        }
    }
}

impl Default for AudioTrackConfig {
    /// Track 0, named `Track 1`, mixed, with no sources.
    fn default() -> (r: AudioTrackConfig)
        ensures
            r.id == 0,
            r.name@ == "Track 1"@,
            r.sources@.len() == 0,
            r.mixer,
    {
        AudioTrackConfig { id: 0, name: owned("Track 1"), sources: Vec::new(), mixer: true }
    }
}

/// Audio format of a profile.
#[derive(Debug)]
pub struct AudioProfileConfig {
    pub sample_rate: u32,
    pub channels: u32,
    pub format: AudioFormat,
    pub tracks: Vec<AudioTrackConfig>,
}

impl Default for AudioProfileConfig {
    /// 48 kHz stereo float with one default track.
    fn default() -> (r: AudioProfileConfig)
        ensures
            r.sample_rate == 48000,
            r.channels == 2,
            r.format == AudioFormat::F32,
            r.tracks@.len() == 1,
            r.tracks@[0].id == 0,
            r.tracks@[0].name@ == "Track 1"@,
            r.tracks@[0].sources@.len() == 0,
            r.tracks@[0].mixer,
    {
        AudioProfileConfig {
            sample_rate: 48000,
            channels: 2,
            format: AudioFormat::F32,
            tracks: vec![AudioTrackConfig::default()],
        }
    }
}

/// Simple or advanced output settings.
#[derive(Clone, Copy, Debug, PartialEq, Eq, Structural)]
pub enum OutputMode {
    Simple,
    Advanced,
}

/// Quality of recordings.
#[derive(Clone, Copy, Debug, PartialEq, Eq, Structural)]
pub enum RecordingQuality {
    Low,
    Medium,
    High,
    Lossless,
}

/// Recording settings.
#[derive(Clone, Debug)]
pub struct RecordingConfig {
    pub format: String,
    pub path: String,
    pub quality: RecordingQuality,
    pub encoder: String,
    pub bitrate: u32,
}

impl Default for RecordingConfig {
    /// High-quality MP4 with x264 at 10000 kbps, no path yet.
    fn default() -> (r: RecordingConfig)
        ensures
            r.format@ == "mp4"@,
            r.path@ == Seq::<char>::empty(),
            r.quality == RecordingQuality::High,
            r.encoder@ == "x264"@,
            r.bitrate == 10000,
    {
        RecordingConfig {
            format: owned("mp4"),
            path: String::new(),
            quality: RecordingQuality::High,
            encoder: owned("x264"),
            bitrate: 10000,
        }
    }
}

/// Streaming encoder settings.
#[derive(Clone, Debug)]
pub struct StreamingOutputConfig {
    pub encoder: String,
    pub bitrate: u32,
    pub use_cbr: bool,
    pub enforce_bitrate: bool,
    pub keyint: u32,
    pub preset: String,
}

impl Default for StreamingOutputConfig {
    /// x264 at 6000 kbps CBR, enforced, keyframe every 2 s, preset `faster`.
    fn default() -> (r: StreamingOutputConfig)
        ensures
            r.encoder@ == "x264"@,
            r.bitrate == 6000,
            r.use_cbr,
            r.enforce_bitrate,
            r.keyint == 2,
            r.preset@ == "faster"@,
    {
        StreamingOutputConfig {
            encoder: owned("x264"),
            bitrate: 6000,
            use_cbr: true,
            enforce_bitrate: true,
            keyint: 2,
            preset: owned("faster"),
        }
    }
}

/// Replay buffer settings.
#[derive(Clone, Copy, Debug, PartialEq, Eq, Structural)]
pub struct ReplayBufferConfig {
    pub enabled: bool,
    pub duration_secs: u32,
    pub max_mb: u32,
}

impl Default for ReplayBufferConfig {
    /// Off, 20 seconds, at most 500 MB.
    fn default() -> (r: ReplayBufferConfig)
        ensures
            r == (ReplayBufferConfig { enabled: false, duration_secs: 20, max_mb: 500 }),
    {
        ReplayBufferConfig { enabled: false, duration_secs: 20, max_mb: 500 }
    }
}

/// Output settings of a profile.
#[derive(Clone, Debug)]
pub struct OutputProfileConfig {
    pub mode: OutputMode,
    pub recording: RecordingConfig,
    pub streaming: StreamingOutputConfig,
    pub replay_buffer: ReplayBufferConfig,
}

impl Default for OutputProfileConfig {
    /// Simple mode with default recording, streaming and replay settings.
    fn default() -> (r: OutputProfileConfig)
        ensures
            r.mode == OutputMode::Simple,
            r.recording.format@ == "mp4"@,
            r.recording.path@ == Seq::<char>::empty(),
            r.recording.encoder@ == "x264"@,
            r.recording.bitrate == 10000,
            r.recording.quality == RecordingQuality::High,
            r.streaming.encoder@ == "x264"@,
            r.streaming.bitrate == 6000,
            r.streaming.use_cbr,
            r.streaming.enforce_bitrate,
            r.streaming.keyint == 2,
            r.streaming.preset@ == "faster"@,
            r.replay_buffer == (ReplayBufferConfig { enabled: false, duration_secs: 20, max_mb: 500 }),
    {
        OutputProfileConfig {
            mode: OutputMode::Simple,
            recording: RecordingConfig::default(),
            streaming: StreamingOutputConfig::default(),
            replay_buffer: ReplayBufferConfig::default(),
        }
    }
}

/// Where a profile streams to.
#[derive(Clone, Debug)]
pub struct StreamingConfig {
    pub destinations: Vec<DestinationConfig>,
    pub primary: Option<String>,
}

impl Default for StreamingConfig {
    /// No destinations and no primary one.
    fn default() -> (r: StreamingConfig)
        ensures
            r.destinations@.len() == 0,
            r.primary is None,
    {
        StreamingConfig { destinations: Vec::new(), primary: None }
    }
}

} // verus!

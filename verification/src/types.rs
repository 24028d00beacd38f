use vstd::prelude::*;

verus! {

/// Identity of an object of the studio (source, encoder, output, scene, scene item).
#[derive(Clone, Copy, Debug, PartialEq, Eq, Structural, Hash)]
pub struct ObjectId(pub u64);

/// Hands out object identities in increasing order, so that no two identities
/// handed out by one allocator are equal (until the counter wraps around).
pub struct IdAllocator {
    next: u64,
}

impl IdAllocator {
    /// The identity that the next call of `allocate` hands out.
    pub closed spec fn next_value(&self) -> u64 {
        self.next
    }

    /// An allocator whose first identity is 1.
    pub fn new() -> (r: IdAllocator)
        ensures
            r.next_value() == 1,
    {
        IdAllocator { next: 1 }
    }

    /// Hands out the next identity; the counter wraps around after `u64::MAX`.
    pub fn allocate(&mut self) -> (id: ObjectId)
        ensures
            id == ObjectId(old(self).next_value()),
            final(self).next_value() == if old(self).next_value() == u64::MAX {
                0
            } else {
                (old(self).next_value() + 1) as u64
            },
    {
        let id = ObjectId(self.next);
        self.next = self.next.wrapping_add(1);
        id
    }
}

/// An allocator hands out increasing identities: while its counter has not
/// wrapped around, every identity handed out earlier lies below the counter,
/// so the identity it hands out next differs from each of them, and all of
/// them stay below the advanced counter.
pub proof fn lemma_allocated_ids_fresh(earlier: ObjectId, before: IdAllocator, id: ObjectId, after: IdAllocator)
    requires
        earlier.0 < before.next_value(),
        before.next_value() < u64::MAX,
        id == ObjectId(before.next_value()),
        after.next_value() == before.next_value() + 1,
    ensures
        id != earlier,
        earlier.0 < after.next_value(),
        id.0 < after.next_value(),
{
}

#[derive(Clone, Copy, Debug, PartialEq, Eq, Structural, Hash)]
pub struct SourceId(pub ObjectId);

/// Identity of a profile: the 128-bit value of its UUID.
#[derive(Clone, Copy, Debug, PartialEq, Eq, Structural, Hash)]
pub struct ProfileId(pub u128);

#[derive(Clone, Copy, Debug, PartialEq, Eq, Structural, Hash)]
pub struct EncoderId(pub ObjectId);

#[derive(Clone, Copy, Debug, PartialEq, Eq, Structural, Hash)]
pub struct OutputId(pub ObjectId);

#[derive(Clone, Copy, Debug, PartialEq, Eq, Structural, Hash)]
pub struct SceneId(pub ObjectId);

#[derive(Clone, Copy, Debug, PartialEq, Eq, Structural, Hash)]
pub struct SceneItemId(pub ObjectId);

#[derive(Clone, Copy, Debug, PartialEq, Eq, Structural, Hash)]
pub struct TrackId(pub u32);

/// Kind of media a stream carries.
#[derive(Clone, Copy, Debug, PartialEq, Eq, Structural, Hash)]
pub enum MediaType {
    Video,
    Audio,
}

/// Layout of the pixels of a video frame.
#[derive(Clone, Copy, Debug, PartialEq, Eq, Structural, Hash)]
pub enum PixelFormat {
    NV12,
    I420,
    I422,
    I444,
    YUY2,
    UYVY,
    RGBA,
    BGRA,
    Rgb24,
    Bgr24,
}

/// Bytes per pixel of the first plane of a pixel format.
pub open spec fn spec_bytes_per_pixel(f: PixelFormat) -> u32 {
    match f {
        PixelFormat::RGBA | PixelFormat::BGRA => 4,
        PixelFormat::Rgb24 | PixelFormat::Bgr24 => 3,
        PixelFormat::YUY2 | PixelFormat::UYVY => 2,
        _ => 1,
    }
}

/// Whether a pixel format stores luma and chroma in separate planes.
pub open spec fn spec_is_planar(f: PixelFormat) -> bool {
    f == PixelFormat::NV12 || f == PixelFormat::I420 || f == PixelFormat::I422 || f
        == PixelFormat::I444
}

impl PixelFormat {
    pub fn bytes_per_pixel(&self) -> (r: u32)
        ensures
            r == spec_bytes_per_pixel(*self),
    {
        match self {
            PixelFormat::RGBA | PixelFormat::BGRA => 4,
            PixelFormat::Rgb24 | PixelFormat::Bgr24 => 3,
            PixelFormat::YUY2 | PixelFormat::UYVY => 2,
            _ => 1,
        }
    }

    pub fn is_planar(&self) -> (r: bool)
        ensures
            r == spec_is_planar(*self),
    {
        match self {
            PixelFormat::NV12 | PixelFormat::I420 | PixelFormat::I422 | PixelFormat::I444 => true,
            _ => false,
        }
    }
}

/// A planar format has one byte per pixel in its first plane.
pub proof fn lemma_planar_formats_have_one_byte_luma(f: PixelFormat)
    requires
        spec_is_planar(f),
    ensures
        spec_bytes_per_pixel(f) == 1,
{
}

/// Sample format of audio.
#[derive(Clone, Copy, Debug, PartialEq, Eq, Structural, Hash)]
pub enum AudioFormat {
    U8,
    S16,
    S32,
    F32,
    F64,
}

pub open spec fn spec_bytes_per_sample(f: AudioFormat) -> u32 {
    match f {
        AudioFormat::U8 => 1,
        AudioFormat::S16 => 2,
        AudioFormat::S32 | AudioFormat::F32 => 4,
        AudioFormat::F64 => 8,
    }
}

impl AudioFormat {
    pub fn bytes_per_sample(&self) -> (r: u32)
        ensures
            r == spec_bytes_per_sample(*self),
    {
        match self {
            AudioFormat::U8 => 1,
            AudioFormat::S16 => 2,
            AudioFormat::S32 | AudioFormat::F32 => 4,
            AudioFormat::F64 => 8,
        }
    }
}

/// Position of a loudspeaker.
#[derive(Clone, Copy, Debug, PartialEq, Eq, Structural, Hash)]
pub enum AudioSpeaker {
    FL,
    FR,
    FC,
    LFE,
    BL,
    BR,
    SL,
    SR,
}

/// The speakers of a 2.1 layout.
pub open spec fn spec_speakers_2point1() -> Seq<AudioSpeaker> {
    seq![AudioSpeaker::FL, AudioSpeaker::FR, AudioSpeaker::LFE]
}

pub fn speakers_2point1() -> (r: Vec<AudioSpeaker>)
    ensures
        r@ == spec_speakers_2point1(),
{
    vec![AudioSpeaker::FL, AudioSpeaker::FR, AudioSpeaker::LFE]
}

pub fn speakers_4point0() -> (r: Vec<AudioSpeaker>)
    ensures
        r@ == seq![AudioSpeaker::FL, AudioSpeaker::FR, AudioSpeaker::BL, AudioSpeaker::BR],
{
    vec![AudioSpeaker::FL, AudioSpeaker::FR, AudioSpeaker::BL, AudioSpeaker::BR]
}

pub fn speakers_4point1() -> (r: Vec<AudioSpeaker>)
    ensures
        r@ == seq![
            AudioSpeaker::FL,
            AudioSpeaker::FR,
            AudioSpeaker::FC,
            AudioSpeaker::BL,
            AudioSpeaker::BR,
        ],
{
    vec![AudioSpeaker::FL, AudioSpeaker::FR, AudioSpeaker::FC, AudioSpeaker::BL, AudioSpeaker::BR]
}

pub fn speakers_5point1() -> (r: Vec<AudioSpeaker>)
    ensures
        r@ == seq![
            AudioSpeaker::FL,
            AudioSpeaker::FR,
            AudioSpeaker::FC,
            AudioSpeaker::LFE,
            AudioSpeaker::BL,
            AudioSpeaker::BR,
        ],
{
    vec![
        AudioSpeaker::FL,
        AudioSpeaker::FR,
        AudioSpeaker::FC,
        AudioSpeaker::LFE,
        AudioSpeaker::BL,
        AudioSpeaker::BR,
    ]
}

pub fn speakers_7point1() -> (r: Vec<AudioSpeaker>)
    ensures
        r@ == seq![
            AudioSpeaker::FL,
            AudioSpeaker::FR,
            AudioSpeaker::FC,
            AudioSpeaker::LFE,
            AudioSpeaker::BL,
            AudioSpeaker::BR,
            AudioSpeaker::SL,
            AudioSpeaker::SR,
        ],
{
    vec![
        AudioSpeaker::FL,
        AudioSpeaker::FR,
        AudioSpeaker::FC,
        AudioSpeaker::LFE,
        AudioSpeaker::BL,
        AudioSpeaker::BR,
        AudioSpeaker::SL,
        AudioSpeaker::SR,
    ]
}

#[derive(Clone, Copy, Debug, PartialEq, Eq, Structural, Hash)]
pub enum VideoRange {
    Partial,
    Full,
}

#[derive(Clone, Copy, Debug, PartialEq, Eq, Structural, Hash)]
pub enum ColorSpace {
    Rec601,
    Rec709,
    Rec2020,
    SRGB,
}

/// Geometry, rate and colour description of a video stream.
#[derive(Clone, Copy, Debug, PartialEq, Eq, Structural, Hash)]
pub struct VideoInfo {
    pub width: u32,
    pub height: u32,
    pub fps_num: u32,
    pub fps_den: u32,
    pub format: PixelFormat,
    pub range: VideoRange,
    pub color_space: ColorSpace,
}

/// Numerator of the bytes per pixel of a whole frame, over 2 (so that 4:2:0
/// formats, with 1.5 bytes per pixel, stay integral).
pub open spec fn frame_factor_halves(f: PixelFormat) -> int {
    match f {
        PixelFormat::NV12 | PixelFormat::I420 => 3,
        PixelFormat::I422 | PixelFormat::YUY2 | PixelFormat::UYVY => 4,
        PixelFormat::I444 | PixelFormat::Rgb24 | PixelFormat::Bgr24 => 6,
        PixelFormat::RGBA | PixelFormat::BGRA => 8,
    }
}

/// Multiplier applied to `width * height` before the optional halving.
pub open spec fn frame_multiplier(f: PixelFormat) -> int {
    match f {
        PixelFormat::NV12 | PixelFormat::I420 => 3,
        PixelFormat::I422 | PixelFormat::YUY2 | PixelFormat::UYVY => 2,
        PixelFormat::I444 | PixelFormat::Rgb24 | PixelFormat::Bgr24 => 3,
        PixelFormat::RGBA | PixelFormat::BGRA => 4,
    }
}

/// Size in bytes of one whole frame of the given geometry and format.
pub open spec fn spec_frame_size(width: u32, height: u32, f: PixelFormat) -> int {
    match f {
        PixelFormat::NV12 | PixelFormat::I420 => (width * height * 3) / 2,
        _ => width * height * frame_multiplier(f),
    }
}

impl Default for VideoInfo {
    /// 1920x1080 NV12 at 30 fps, partial range, Rec. 709.
    fn default() -> (r: VideoInfo)
        ensures
            r == (VideoInfo {
                width: 1920,
                height: 1080,
                fps_num: 30,
                fps_den: 1,
                format: PixelFormat::NV12,
                range: VideoRange::Partial,
                color_space: ColorSpace::Rec709,
            }),
    {
        VideoInfo {
            width: 1920,
            height: 1080,
            fps_num: 30,
            fps_den: 1,
            format: PixelFormat::NV12,
            range: VideoRange::Partial,
            color_space: ColorSpace::Rec709,
        }
    }
}

/// What `std::time::Duration::from_micros` returns for a count of
/// microseconds.
pub uninterp spec fn duration_of_micros(micros: u64) -> std::time::Duration;

/// `std::time::Duration::from_micros`: the duration of `micros` microseconds.
/// A `Duration` is opaque here, so the contract only names the result as a
/// function of its argument.
#[verifier::external_body]
fn duration_from_micros(micros: u64) -> (r: std::time::Duration)
    ensures
        r == duration_of_micros(micros),
{
    std::time::Duration::from_micros(micros)
}

impl VideoInfo {
    /// Duration of one frame in microseconds, rounded down.
    pub fn frame_duration_micros(&self) -> (r: u64)
        requires
            self.fps_num != 0,
        ensures
            r == (1_000_000 * self.fps_den) / (self.fps_num as int),
    {
        1_000_000 * self.fps_den as u64 / self.fps_num as u64
    }

    /// Duration of one frame, rounded down to whole microseconds.
    pub fn frame_duration(&self) -> (r: std::time::Duration)
        requires
            self.fps_num != 0,
        ensures
            r == duration_of_micros(((1_000_000 * self.fps_den) / (self.fps_num as int)) as u64),
    {
        duration_from_micros(self.frame_duration_micros())
    }

    /// Size in bytes of one frame of this geometry in `format`.
    pub fn frame_size_bytes(&self, format: PixelFormat) -> (r: usize)
        requires
            self.width * self.height * frame_multiplier(format) <= u32::MAX,
        ensures
            r == spec_frame_size(self.width, self.height, format),
    {
        let w = self.width;
        let h = self.height;
        proof {
            let m = frame_multiplier(format);
            assert(w * h <= w * h * m) by (nonlinear_arith)
                requires
                    m >= 2,
            ;
        }
        let wh = w * h;
        match format {
            PixelFormat::NV12 => (wh * 3 / 2) as usize,
            PixelFormat::I420 => (wh * 3 / 2) as usize,
            PixelFormat::I422 => (wh * 2) as usize,
            PixelFormat::I444 => (wh * 3) as usize,
            PixelFormat::RGBA => (wh * 4) as usize,
            PixelFormat::BGRA => (wh * 4) as usize,
            PixelFormat::Rgb24 => (wh * 3) as usize,
            PixelFormat::Bgr24 => (wh * 3) as usize,
            PixelFormat::YUY2 => (wh * 2) as usize,
            PixelFormat::UYVY => (wh * 2) as usize,
        }
    }
}

/// Sample rate, sample format and speaker layout of an audio stream.
#[derive(Debug)]
pub struct AudioInfo {
    pub sample_rate: u32,
    pub format: AudioFormat,
    pub speakers: Vec<AudioSpeaker>,
}

impl Clone for AudioInfo {
    fn clone(&self) -> (r: Self)
        ensures
            r.sample_rate == self.sample_rate,
            r.format == self.format,
            r.speakers@ == self.speakers@,
    {
        AudioInfo {
            sample_rate: self.sample_rate,
            format: self.format,
            speakers: copy_speakers(&self.speakers),
        }
    }
}

/// A copy of a list of speakers.
pub fn copy_speakers(v: &Vec<AudioSpeaker>) -> (r: Vec<AudioSpeaker>)
    ensures
        r@ == v@,
{
    let mut r: Vec<AudioSpeaker> = Vec::new();
    let mut i: usize = 0;
    while i < v.len()
        invariant
            i <= v.len(),
            r@ == v@.subrange(0, i as int),
        decreases v.len() - i,
    {
        r.push(v[i]);
        i = i + 1;
        assert(r@ =~= v@.subrange(0, i as int));
    }
    assert(r@ =~= v@);
    r
}

impl Default for AudioInfo {
    /// 48 kHz, 32-bit float samples, 2.1 speakers.
    fn default() -> (r: AudioInfo)
        ensures
            r.sample_rate == 48000,
            r.format == AudioFormat::F32,
            r.speakers@ == spec_speakers_2point1(),
    {
        AudioInfo { sample_rate: 48000, format: AudioFormat::F32, speakers: speakers_2point1() }
    }
}

impl AudioInfo {

    pub fn channels(&self) -> (r: usize)
        ensures
            r == self.speakers@.len(),
    {
        self.speakers.len()
    }

    /// Bytes of one audio frame: one sample per channel.
    pub fn bytes_per_frame(&self) -> (r: u32)
        requires
            spec_bytes_per_sample(self.format) * (self.speakers@.len() as u32) <= u32::MAX,
        ensures
            r == spec_bytes_per_sample(self.format) * (self.speakers@.len() as u32),
    {
        self.format.bytes_per_sample() * self.channels() as u32
    }
}

/// Limits of an encoder.
#[derive(Debug)]
pub struct EncoderCapabilities {
    pub max_width: u32,
    pub max_height: u32,
    pub max_fps: u32,
    pub supports_hardware: bool,
    pub supported_pixel_formats: Vec<PixelFormat>,
}

/// A copy of a list of pixel formats.
pub fn copy_pixel_formats(v: &Vec<PixelFormat>) -> (r: Vec<PixelFormat>)
    ensures
        r@ == v@,
{
    let mut r: Vec<PixelFormat> = Vec::new();
    let mut i: usize = 0;
    while i < v.len()
        invariant
            i <= v.len(),
            r@ == v@.subrange(0, i as int),
        decreases v.len() - i,
    {
        r.push(v[i]);
        i = i + 1;
        assert(r@ =~= v@.subrange(0, i as int));
    }
    assert(r@ =~= v@);
    r
}

impl Clone for EncoderCapabilities {
    fn clone(&self) -> (r: Self)
        ensures
            r.max_width == self.max_width,
            r.max_height == self.max_height,
            r.max_fps == self.max_fps,
            r.supports_hardware == self.supports_hardware,
            r.supported_pixel_formats@ == self.supported_pixel_formats@,
    {
        EncoderCapabilities {
            max_width: self.max_width,
            max_height: self.max_height,
            max_fps: self.max_fps,
            supports_hardware: self.supports_hardware,
            supported_pixel_formats: copy_pixel_formats(&self.supported_pixel_formats),
        }
    }
}

/// A named speed/quality trade-off of an encoder.
#[derive(Debug)]
pub struct EncoderPreset {
    pub id: u32,
    pub name: String,
    pub description: String,
    pub quality_level: u8,
    pub speed_level: u8,
}

/// The mathematical value of an encoder preset.
pub struct PresetView {
    pub id: u32,
    pub name: Seq<char>,
    pub description: Seq<char>,
    pub quality_level: u8,
    pub speed_level: u8,
}

impl View for EncoderPreset {
    type V = PresetView;

    open spec fn view(&self) -> PresetView {
        PresetView {
            id: self.id,
            name: self.name@,
            description: self.description@,
            quality_level: self.quality_level,
            speed_level: self.speed_level,
        }
    }
}

impl Clone for EncoderPreset {
    fn clone(&self) -> (r: Self)
        ensures
            r@ == self@,
    {
        EncoderPreset {
            id: self.id,
            name: self.name.clone(),
            description: self.description.clone(),
            quality_level: self.quality_level,
            speed_level: self.speed_level,
        }
    }
}

#[derive(Clone, Copy, Debug, PartialEq, Eq, Structural, Hash)]
pub struct EncoderRateControl {
    pub bitrate: u32,
    pub buffer_size: Option<u32>,
    pub keyframe_interval: u32,
    pub rate_control_mode: RateControlMode,
}

#[derive(Clone, Copy, Debug, PartialEq, Eq, Structural, Hash)]
pub enum RateControlMode {
    CBR,
    VBR,
    CQP,
    CRF,
}

} // verus!

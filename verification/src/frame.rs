use vstd::prelude::*;

use crate::types::{copy_speakers, spec_bytes_per_sample, AudioFormat, AudioInfo, AudioSpeaker, PixelFormat, TrackId};

verus! {

/// Bytes per row of each plane of a frame `width` pixels wide.
pub open spec fn spec_linesize(width: u32, format: PixelFormat) -> Seq<usize> {
    match format {
        PixelFormat::RGBA | PixelFormat::BGRA => seq![(width * 4) as usize],
        PixelFormat::Rgb24 | PixelFormat::Bgr24 => seq![(width * 3) as usize],
        PixelFormat::YUY2 | PixelFormat::UYVY => seq![(width * 2) as usize],
        PixelFormat::NV12 => seq![width as usize, width as usize],
        PixelFormat::I420 => seq![width as usize, (width / 2) as usize, (width / 2) as usize],
        _ => seq![width as usize],
    }
}

/// Size of the buffer that `VideoFrame::new` allocates: the sum of the line sizes.
pub open spec fn spec_new_data_len(width: u32, format: PixelFormat) -> int {
    match format {
        PixelFormat::RGBA | PixelFormat::BGRA => width * 4,
        PixelFormat::Rgb24 | PixelFormat::Bgr24 => width * 3,
        PixelFormat::YUY2 | PixelFormat::UYVY => width * 2,
        PixelFormat::NV12 => width * 2,
        PixelFormat::I420 => width + 2 * (width / 2),
        _ => width as int,
    }
}

/// `VideoFrame::new` computes the line size of the packed formats in `u32`.
/// Its buffer size is a sum of line sizes in `usize`.
pub open spec fn linesize_fits(width: u32, format: PixelFormat) -> bool {
    &&& match format {
        PixelFormat::RGBA | PixelFormat::BGRA => width * 4 <= u32::MAX,
        PixelFormat::Rgb24 | PixelFormat::Bgr24 => width * 3 <= u32::MAX,
        PixelFormat::YUY2 | PixelFormat::UYVY => width * 2 <= u32::MAX,
        _ => true,
    }
    &&& spec_new_data_len(width, format) <= usize::MAX
}

/// Whether `VideoFrame::new` can make a frame of this width and format.
pub fn linesize_fits_exec(width: u32, format: PixelFormat) -> (r: bool)
    ensures
        r == linesize_fits(width, format),
{
    let w = width as u64;
    let (row, total): (u64, u64) = match format {
        PixelFormat::RGBA | PixelFormat::BGRA => (w * 4, w * 4),
        PixelFormat::Rgb24 | PixelFormat::Bgr24 => (w * 3, w * 3),
        PixelFormat::YUY2 | PixelFormat::UYVY => (w * 2, w * 2),
        PixelFormat::NV12 => (w, w * 2),
        PixelFormat::I420 => (w, w + 2 * (w / 2)),
        _ => (w, w),
    };
    row <= 4294967295u64 && total <= usize::MAX as u64
}

/// `r` is the zeroed frame that `VideoFrame::new(width, height, format)` makes.
pub open spec fn blank_frame(r: VideoFrame, width: u32, height: u32, format: PixelFormat) -> bool {
    &&& r.width == width
    &&& r.height == height
    &&& r.format == format
    &&& r.pts == 0
    &&& r.duration == 0
    &&& r.linesize@ == spec_linesize(width, format)
    &&& r.data@.len() == spec_new_data_len(width, format)
    &&& forall|i: int| 0 <= i < r.data@.len() ==> r.data@[i] == 0
}

/// A raw video frame.
#[derive(Clone, Debug)]
pub struct VideoFrame {
    pub width: u32,
    pub height: u32,
    pub format: PixelFormat,
    pub data: Vec<u8>,
    pub pts: i64,
    pub duration: i64,
    pub linesize: Vec<usize>,
}

impl VideoFrame {
    /// A zeroed frame whose buffer holds one row of each plane (the sum of the line sizes).
    pub fn new(width: u32, height: u32, format: PixelFormat) -> (r: VideoFrame)
        requires
            linesize_fits(width, format),
        ensures
            r.width == width,
            r.height == height,
            r.format == format,
            r.pts == 0,
            r.duration == 0,
            r.linesize@ == spec_linesize(width, format),
            r.data@.len() == spec_new_data_len(width, format),
            forall|i: int| 0 <= i < r.data@.len() ==> r.data@[i] == 0,
            blank_frame(r, width, height, format),
    {
        let linesize = Self::calculate_linesize(width, height, format);
        let mut size: usize = 0;
        let mut i: usize = 0;
        while i < linesize.len()
            invariant
                i <= linesize.len(),
                linesize@ == spec_linesize(width, format),
                linesize_fits(width, format),
                size == sum_prefix(linesize@, i as int),
            decreases linesize.len() - i,
        {
            proof {
                lemma_sum_prefix_bounded(width, format, i as int);
            }
            size = size + linesize[i];
            i = i + 1;
        }
        proof {
            lemma_sum_linesize(width, format);
        }
        let data = zeroed_bytes(size);
        VideoFrame { width, height, format, data, pts: 0, duration: 0, linesize }
    }

    fn calculate_linesize(width: u32, height: u32, format: PixelFormat) -> (r: Vec<usize>)
        requires
            linesize_fits(width, format),
        ensures
            r@ == spec_linesize(width, format),
    {
        match format {
            PixelFormat::RGBA | PixelFormat::BGRA => vec![(width * 4) as usize],
            PixelFormat::Rgb24 | PixelFormat::Bgr24 => vec![(width * 3) as usize],
            PixelFormat::YUY2 | PixelFormat::UYVY => vec![(width * 2) as usize],
            PixelFormat::NV12 => vec![(width) as usize, (width) as usize],
            PixelFormat::I420 => vec![(width) as usize, (width / 2) as usize, (width / 2) as usize],
            _ => vec![(width) as usize],
        }
    }
}

/// Sum of the first `n` entries of `s`.
pub open spec fn sum_prefix(s: Seq<usize>, n: int) -> int
    decreases n,
{
    if n <= 0 {
        0
    } else {
        sum_prefix(s, n - 1) + s[n - 1]
    }
}

proof fn lemma_sum_prefix_bounded(width: u32, format: PixelFormat, i: int)
    requires
        linesize_fits(width, format),
        0 <= i < spec_linesize(width, format).len(),
    ensures
        sum_prefix(spec_linesize(width, format), i) + spec_linesize(width, format)[i]
            <= spec_new_data_len(width, format),
{
    lemma_sum_linesize(width, format);
    reveal_with_fuel(sum_prefix, 4);
}

proof fn lemma_sum_linesize(width: u32, format: PixelFormat)
    requires
        linesize_fits(width, format),
    ensures
        sum_prefix(spec_linesize(width, format), spec_linesize(width, format).len() as int)
            == spec_new_data_len(width, format),
{
    reveal_with_fuel(sum_prefix, 4);
    let s = spec_linesize(width, format);
    match format {
        PixelFormat::I420 => {
            assert(sum_prefix(s, 3) == sum_prefix(s, 2) + s[2]);
            assert(sum_prefix(s, 2) == sum_prefix(s, 1) + s[1]);
            assert(sum_prefix(s, 1) == sum_prefix(s, 0) + s[0]);
        },
        PixelFormat::NV12 => {
            assert(sum_prefix(s, 2) == sum_prefix(s, 1) + s[1]);
            assert(sum_prefix(s, 1) == sum_prefix(s, 0) + s[0]);
        },
        _ => {
            assert(sum_prefix(s, 1) == sum_prefix(s, 0) + s[0]);
        },
    }
}

/// A buffer of `n` zero bytes.
pub fn zeroed_bytes(n: usize) -> (r: Vec<u8>)
    ensures
        r@.len() == n,
        forall|i: int| 0 <= i < n ==> r@[i] == 0,
{
    let mut r: Vec<u8> = Vec::with_capacity(n);
    let mut i: usize = 0;
    while i < n
        invariant
            i <= n,
            r@.len() == i,
            forall|j: int| 0 <= j < i ==> r@[j] == 0,
        decreases n - i,
    {
        r.push(0);
        i = i + 1;
    }
    r
}

/// A block of raw audio frames.
#[derive(Clone, Debug)]
pub struct AudioFrame {
    pub sample_rate: u32,
    pub format: AudioFormat,
    pub speakers: Vec<AudioSpeaker>,
    pub data: Vec<u8>,
    pub frames: u32,
    pub pts: i64,
}

impl AudioFrame {
    /// A silent block of `frames` frames in the layout of `audio_info`.
    pub fn new(frames: u32, audio_info: &AudioInfo) -> (r: AudioFrame)
        requires
            frames * audio_info.speakers@.len() * spec_bytes_per_sample(audio_info.format)
                <= usize::MAX,
        ensures
            r.sample_rate == audio_info.sample_rate,
            r.format == audio_info.format,
            r.speakers@ == audio_info.speakers@,
            r.frames == frames,
            r.pts == 0,
            r.data@.len() == frames * audio_info.speakers@.len() * spec_bytes_per_sample(
                audio_info.format,
            ),
            forall|i: int| 0 <= i < r.data@.len() ==> r.data@[i] == 0,
    {
        let bytes_per_sample = audio_info.format.bytes_per_sample() as usize;
        let channels = audio_info.channels();
        let f = frames as usize;
        proof {
            assert(f * channels <= f * channels * bytes_per_sample) by (nonlinear_arith)
                requires
                    bytes_per_sample >= 1,
            ;
        }
        let size = f * channels * bytes_per_sample;
        AudioFrame {
            sample_rate: audio_info.sample_rate,
            format: audio_info.format,
            speakers: copy_speakers(&audio_info.speakers),
            data: zeroed_bytes(size),
            frames,
            pts: 0,
        }
    }
}

/// A frame handed to an encoder.
#[derive(Clone, Debug)]
pub enum MediaData {
    Video(VideoFrame),
    Audio(AudioFrame),
}

/// A compressed packet produced by an encoder.
#[derive(Clone, Debug)]
pub struct EncodedPacket {
    pub data: Vec<u8>,
    pub pts: i64,
    pub dts: i64,
    pub duration: i64,
    pub keyframe: bool,
    pub track: TrackId,
}

} // verus!

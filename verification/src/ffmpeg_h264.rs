use vstd::prelude::*;
use crate::encoding::{
    MediaInfo, VideoEncodeInfo, find_preset_by_name, preset, preset_views, pv,
    rate_control_name, rate_control_name_spec, take_preset_with_name,
};
use crate::frame::EncodedPacket;
use crate::names::string_views;
use crate::property::{
    F64_ONE_BITS, F64_100_BITS, F64_TWENTY_BITS, F64_50000_BITS, PropertyDef, PropertyDefView,
    PropertyValue, ValueView, defs_view, empty_json_object, enum_def, enum_def_view, int_def,
    int_def_view, pairs_view, string_pair,
};
use crate::text::{
    decimal, decimal_pair, decimal_string, decimal_with, owned, push_arg, push_owned_arg, str_eq,
};
use crate::types::{
    EncoderCapabilities, EncoderId, EncoderPreset, MediaType, PixelFormat, PresetView,
    RateControlMode, TrackId, VideoInfo,
};

verus! {

/// H.264 encoding through an external `ffmpeg` process running libx264. This
/// type keeps the settings and the frame count and computes the command
/// line; the process itself is driven by its owner.
pub struct FfmpegH264Encoder {
    id: EncoderId,
    name: String,
    bitrate: u32,
    keyint: u32,
    rate_control: RateControlMode,
    preset: String,
    profile: String,
    caps: EncoderCapabilities,
    frame_count: i64,
    initialized: bool,
    input_info: Option<VideoInfo>,
    width: u32,
    height: u32,
    fps_num: u32,
    fps_den: u32,
    pixel_format: &'static str,
}

/// Mathematical state of the FFmpeg H.264 encoder.
pub struct FfmpegH264View {
    pub id: EncoderId,
    pub name: Seq<char>,
    pub bitrate: u32,
    pub keyint: u32,
    pub rate_control: RateControlMode,
    pub preset: Seq<char>,
    pub profile: Seq<char>,
    pub caps_max: (u32, u32, u32),
    pub caps_hardware: bool,
    pub caps_formats: Seq<PixelFormat>,
    pub frame_count: i64,
    pub initialized: bool,
    pub input_info: Option<VideoInfo>,
    pub width: u32,
    pub height: u32,
    pub fps_num: u32,
    pub fps_den: u32,
    pub pixel_format: Seq<char>,
}

impl View for FfmpegH264Encoder {
    type V = FfmpegH264View;

    closed spec fn view(&self) -> FfmpegH264View {
        FfmpegH264View {
            id: self.id,
            name: self.name@,
            bitrate: self.bitrate,
            keyint: self.keyint,
            rate_control: self.rate_control,
            preset: self.preset@,
            profile: self.profile@,
            caps_max: (self.caps.max_width, self.caps.max_height, self.caps.max_fps),
            caps_hardware: self.caps.supports_hardware,
            caps_formats: self.caps.supported_pixel_formats@,
            frame_count: self.frame_count,
            initialized: self.initialized,
            input_info: self.input_info,
            width: self.width,
            height: self.height,
            fps_num: self.fps_num,
            fps_den: self.fps_den,
            pixel_format: self.pixel_format@,
        }
    }
}

/// The FFmpeg name of a raw pixel format.
pub open spec fn ffmpeg_pixel_format(f: PixelFormat) -> Seq<char> {
    match f {
        PixelFormat::NV12 => "nv12"@,
        PixelFormat::I420 => "yuv420p"@,
        PixelFormat::I422 => "yuv422p"@,
        PixelFormat::I444 => "yuv444p"@,
        PixelFormat::RGBA => "rgba"@,
        PixelFormat::BGRA => "bgra"@,
        PixelFormat::Rgb24 => "rgb24"@,
        PixelFormat::Bgr24 => "bgr24"@,
        _ => "nv12"@,
    }
}

/// The pixel formats that FFmpeg is told by their own name (YUY2 and UYVY
/// are handed on as NV12).
pub open spec fn named_pixel_format(f: PixelFormat) -> bool {
    f != PixelFormat::YUY2 && f != PixelFormat::UYVY
}

/// The encoder names the frames' byte order as it is: two different formats
/// never get the same FFmpeg name, and frames as a capture delivers them
/// (BGRA) are named exactly as the capture's own `ffmpeg` writes them.
pub proof fn lemma_pixel_format_names_byte_order(f: PixelFormat, g: PixelFormat)
    ensures
        named_pixel_format(f) && named_pixel_format(g) && f != g ==> ffmpeg_pixel_format(f) != ffmpeg_pixel_format(g),
        ffmpeg_pixel_format(crate::capture::capture_video_info().format) == crate::capture::raw_bgra_output_args()[3],
{
    reveal_strlit("nv12");
    reveal_strlit("yuv420p");
    reveal_strlit("yuv422p");
    reveal_strlit("yuv444p");
    reveal_strlit("rgba");
    reveal_strlit("bgra");
    reveal_strlit("rgb24");
    reveal_strlit("bgr24");
    reveal_strlit("-f");
    reveal_strlit("rawvideo");
    reveal_strlit("-pix_fmt");
    reveal_strlit("-");
    if named_pixel_format(f) && named_pixel_format(g) && f != g {
        let a = ffmpeg_pixel_format(f);
        let b = ffmpeg_pixel_format(g);
        if a == b {
            assert(a.len() == b.len());
            assert(a[0] == b[0] && a[1] == b[1] && a[2] == b[2] && a[3] == b[3]);
            if a.len() > 4 {
                assert(a[4] == b[4] && a[5] == b[5]);
            }
            if a.len() > 6 {
                assert(a[6] == b[6]);
            }
        }
    }
}

/// The nine presets of libx264 as FFmpeg names them.
pub open spec fn ffmpeg_h264_presets() -> Seq<PresetView> {
    seq![
        pv(0, "ultrafast"@, "Fastest, lowest quality"@, 1, 9),
        pv(1, "superfast"@, "Very fast"@, 2, 8),
        pv(2, "veryfast"@, "Fast"@, 3, 7),
        pv(3, "faster"@, "Faster"@, 4, 6),
        pv(4, "fast"@, "Quick"@, 5, 5),
        pv(5, "medium"@, "Balanced"@, 6, 5),
        pv(6, "slow"@, "Slower, better quality"@, 7, 3),
        pv(7, "slower"@, "Much slower, high quality"@, 8, 2),
        pv(8, "veryslow"@, "Slowest, best quality"@, 9, 1),
    ]
}

/// The preset reported when the selected name is none of the presets.
pub open spec fn ffmpeg_h264_fallback_preset() -> PresetView {
    pv(3, "faster"@, "Faster"@, 4, 6)
}

/// The H.264 profiles offered.
pub open spec fn h264_profile_choices() -> Seq<(Seq<char>, Seq<char>)> {
    seq![("baseline"@, "Baseline"@), ("main"@, "Main"@), ("high"@, "High"@)]
}

/// The tunable parameters of the FFmpeg H.264 encoder.
pub open spec fn ffmpeg_h264_parameters() -> Seq<PropertyDefView> {
    seq![
        int_def_view("bitrate"@, "Bitrate (kbps)"@, 6000, F64_100_BITS, F64_50000_BITS),
        int_def_view("keyint"@, "Keyframe Interval (seconds)"@, 2, F64_ONE_BITS, F64_TWENTY_BITS),
        enum_def_view(
            "rate_control"@,
            "Rate Control"@,
            "CBR"@,
            seq![("CBR"@, "CBR"@), ("VBR"@, "VBR"@), ("CRF"@, "CRF"@), ("CQP"@, "CQP"@)],
        ),
        enum_def_view("profile"@, "H.264 Profile"@, "high"@, h264_profile_choices()),
    ]
}

/// The rate-control mode that the FFmpeg H.264 encoder takes from a name.
pub open spec fn ffmpeg_rate_control_from(s: Seq<char>) -> RateControlMode {
    if s == "CBR"@ {
        RateControlMode::CBR
    } else if s == "VBR"@ {
        RateControlMode::VBR
    } else if s == "CRF"@ {
        RateControlMode::CRF
    } else if s == "CQP"@ {
        RateControlMode::CQP
    } else {
        RateControlMode::CBR
    }
}

/// What `get_parameter(name)` reports.
pub open spec fn ffmpeg_h264_get_parameter_spec(s: FfmpegH264View, name: Seq<char>) -> Option<
    ValueView,
> {
    if name == "bitrate"@ {
        Some(ValueView::Int(s.bitrate as i64))
    } else if name == "keyint"@ {
        Some(ValueView::Int(s.keyint as i64))
    } else if name == "rate_control"@ {
        Some(ValueView::Enum(rate_control_name_spec(s.rate_control)))
    } else if name == "profile"@ {
        Some(ValueView::Enum(s.profile))
    } else {
        None
    }
}

/// The state after `set_parameter(name, value)`.
pub open spec fn ffmpeg_h264_set_parameter_spec(
    s: FfmpegH264View,
    name: Seq<char>,
    value: ValueView,
) -> FfmpegH264View {
    if name == "bitrate"@ {
        match value {
            ValueView::Int(b) => FfmpegH264View { bitrate: b as u32, ..s },
            _ => s,
        }
    } else if name == "keyint"@ {
        match value {
            ValueView::Int(k) => FfmpegH264View { keyint: k as u32, ..s },
            _ => s,
        }
    } else if name == "rate_control"@ {
        match value {
            ValueView::Enum(rc) => FfmpegH264View { rate_control: ffmpeg_rate_control_from(rc), ..s },
            _ => s,
        }
    } else if name == "profile"@ {
        match value {
            ValueView::Enum(p) => FfmpegH264View { profile: p, ..s },
            _ => s,
        }
    } else {
        s
    }
}

/// A bitrate in kilobits as FFmpeg reads it (`6000k`).
pub open spec fn kbits(n: nat) -> Seq<char> {
    decimal(n) + "k"@
}

/// The rate-control options that libx264 is given.
pub open spec fn x264_rate_args(rc: RateControlMode, bitrate: u32) -> Seq<Seq<char>> {
    match rc {
        RateControlMode::CBR => seq![
            "-b:v"@,
            kbits(bitrate as nat),
            "-maxrate"@,
            kbits(bitrate as nat),
            "-bufsize"@,
            kbits((bitrate * 2) as nat),
            "-x264-params"@,
            "nal-hrd=cbr:force-cfr=1"@,
        ],
        RateControlMode::VBR => seq![
            "-b:v"@,
            kbits(bitrate as nat),
            "-maxrate"@,
            kbits((bitrate * 2) as nat),
            "-bufsize"@,
            kbits((bitrate * 4) as nat),
        ],
        RateControlMode::CRF => seq!["-crf"@, "23"@],
        RateControlMode::CQP => seq!["-qp"@, "23"@],
    }
}

/// Keyframe interval in frames: seconds times the frame rate, rounded down.
pub open spec fn keyint_frames(keyint: u32, fps_num: u32, fps_den: u32) -> nat {
    ((keyint * fps_num) / (fps_den as int)) as nat
}

/// The `ffmpeg` command line that encodes raw frames from standard input to
/// an H.264 elementary stream on standard output.
pub open spec fn ffmpeg_h264_args(s: FfmpegH264View, v: VideoInfo) -> Seq<Seq<char>> {
    seq![
        "-f"@,
        "rawvideo"@,
        "-pix_fmt"@,
        ffmpeg_pixel_format(v.format),
        "-s"@,
        decimal(v.width as nat) + "x"@ + decimal(v.height as nat),
        "-r"@,
        decimal(v.fps_num as nat) + "/"@ + decimal(v.fps_den as nat),
        "-i"@,
        "-"@,
        "-c:v"@,
        "libx264"@,
        "-preset"@,
        s.preset,
        "-profile:v"@,
        s.profile,
        "-tune"@,
        "zerolatency"@,
    ] + x264_rate_args(s.rate_control, s.bitrate) + seq![
        "-g"@,
        decimal(keyint_frames(s.keyint, v.fps_num, v.fps_den)),
        "-keyint_min"@,
        decimal(s.keyint as nat),
        "-f"@,
        "h264"@,
        "-"@,
    ]
}

/// The settings under which `initialize` can compute the command line: the
/// doubled and quadrupled bitrate and the keyframe product fit in `u32`, and
/// the frame rate's denominator is not zero.
pub open spec fn ffmpeg_h264_can_start(s: FfmpegH264View, v: VideoInfo) -> bool {
    &&& s.bitrate * 4 <= u32::MAX
    &&& s.keyint * v.fps_num <= u32::MAX
    &&& v.fps_den != 0
}

impl FfmpegH264Encoder {
    /// A new encoder: 6000 kbps CBR, keyframe every 2 s, preset `faster`,
    /// profile `high`, 1920x1080 at 30 fps in NV12 until initialised.
    pub fn new(id: EncoderId) -> (r: FfmpegH264Encoder)
        ensures
            r@.id == id,
            r@.name == "FFmpeg x264"@,
            r@.bitrate == 6000,
            r@.keyint == 2,
            r@.rate_control == RateControlMode::CBR,
            r@.preset == "faster"@,
            r@.profile == "high"@,
            r@.caps_max == (4096u32, 2160u32, 120u32),
            !r@.caps_hardware,
            r@.caps_formats == seq![PixelFormat::NV12, PixelFormat::I420, PixelFormat::I422, PixelFormat::I444],
            r@.frame_count == 0,
            !r@.initialized,
            r@.input_info is None,
            r@.width == 1920,
            r@.height == 1080,
            r@.fps_num == 30,
            r@.fps_den == 1,
            r@.pixel_format == "nv12"@,
    {
        let r = FfmpegH264Encoder {
            id,
            name: owned("FFmpeg x264"),
            bitrate: 6000,
            keyint: 2,
            rate_control: RateControlMode::CBR,
            preset: owned("faster"),
            profile: owned("high"),
            caps: EncoderCapabilities {
                max_width: 4096,
                max_height: 2160,
                max_fps: 120,
                supports_hardware: false,
                supported_pixel_formats: vec![
                    PixelFormat::NV12,
                    PixelFormat::I420,
                    PixelFormat::I422,
                    PixelFormat::I444,
                ],
            },
            frame_count: 0,
            initialized: false,
            input_info: None,
            width: 1920,
            height: 1080,
            fps_num: 30,
            fps_den: 1,
            pixel_format: "nv12",
        };
        assert(r@.caps_formats =~= seq![PixelFormat::NV12, PixelFormat::I420, PixelFormat::I422, PixelFormat::I444]);
        r
    }

    /// The FFmpeg name of a pixel format.
    pub fn pixel_format_str(format: PixelFormat) -> (r: &'static str)
        ensures
            r@ == ffmpeg_pixel_format(format),
    {
        match format {
            PixelFormat::NV12 => "nv12",
            PixelFormat::I420 => "yuv420p",
            PixelFormat::I422 => "yuv422p",
            PixelFormat::I444 => "yuv444p",
            PixelFormat::RGBA => "rgba",
            PixelFormat::BGRA => "bgra",
            PixelFormat::Rgb24 => "rgb24",
            PixelFormat::Bgr24 => "bgr24",
            _ => "nv12",
        }
    }

    pub fn id(&self) -> (r: EncoderId)
        ensures
            r == self@.id,
    {
        self.id
    }

    pub fn name(&self) -> (r: &str)
        ensures
            r@ == self@.name,
    {
        self.name.as_str()
    }

    pub fn codec_name(&self) -> (r: &'static str)
        ensures
            r@ == "h264"@,
    {
        "h264"
    }

    pub fn media_type(&self) -> (r: MediaType)
        ensures
            r == MediaType::Video,
    {
        MediaType::Video
    }

    /// Whether `initialize` can compute the command line for this video.
    pub fn can_start(&self, v: &VideoInfo) -> (r: bool)
        ensures
            r == ffmpeg_h264_can_start(self@, *v),
    {
        let k = self.keyint as u64;
        let f = v.fps_num as u64;
        assert(k * f <= 0xffff_ffff_ffff_ffff) by (nonlinear_arith)
            requires
                k <= 0xffff_ffff,
                f <= 0xffff_ffff,
        ;
        (self.bitrate as u64) * 4 <= 4294967295u64 && k * f <= 4294967295u64 && v.fps_den != 0
    }

    /// How many frames were counted.
    pub fn frame_count(&self) -> (r: i64)
        ensures
            r == self@.frame_count,
    {
        self.frame_count
    }

    pub fn is_initialized(&self) -> (r: bool)
        ensures
            r == self@.initialized,
    {
        self.initialized
    }

    /// The video the encoder was initialised with, under the name `libx264`.
    pub fn get_input_info(&self) -> (r: Option<MediaInfo>)
        ensures
            match self@.input_info {
                Some(v) => r matches Some(MediaInfo::Video(e)) && e.video == v
                    && e.encoder_name@ == "libx264"@,
                None => r is None,
            },
    {
        match self.input_info {
            Some(v) => Some(
                MediaInfo::Video(
                    VideoEncodeInfo {
                        video: v,
                        encoder_name: owned("libx264"),
                        codec_params: empty_json_object(),
                    },
                ),
            ),
            None => None,
        }
    }

    pub fn get_output_info(&self) -> (r: Option<MediaInfo>)
        ensures
            r is None,
    {
        None
    }

    pub fn get_caps(&self) -> (r: EncoderCapabilities)
        ensures
            (r.max_width, r.max_height, r.max_fps) == self@.caps_max,
            r.supports_hardware == self@.caps_hardware,
            r.supported_pixel_formats@ == self@.caps_formats,
    {
        self.caps.clone()
    }

    /// The nine libx264 presets.
    pub fn get_presets(&self) -> (r: Vec<EncoderPreset>)
        ensures
            preset_views(r@) == ffmpeg_h264_presets(),
    {
        let r = vec![
            preset(0, "ultrafast", "Fastest, lowest quality", 1, 9),
            preset(1, "superfast", "Very fast", 2, 8),
            preset(2, "veryfast", "Fast", 3, 7),
            preset(3, "faster", "Faster", 4, 6),
            preset(4, "fast", "Quick", 5, 5),
            preset(5, "medium", "Balanced", 6, 5),
            preset(6, "slow", "Slower, better quality", 7, 3),
            preset(7, "slower", "Much slower, high quality", 8, 2),
            preset(8, "veryslow", "Slowest, best quality", 9, 1),
        ];
        assert(preset_views(r@) =~= ffmpeg_h264_presets());
        r
    }

    /// The preset named like the selected one, or `faster`.
    pub fn get_current_preset(&self) -> (r: EncoderPreset)
        ensures
            r@ == match find_preset_by_name(ffmpeg_h264_presets(), self@.preset) {
                Some(p) => p,
                None => ffmpeg_h264_fallback_preset(),
            },
    {
        match take_preset_with_name(self.get_presets(), &self.preset) {
            Some(p) => p,
            None => preset(3, "faster", "Faster", 4, 6),
        }
    }

    /// Selects a preset by its name.
    pub fn set_preset(&mut self, preset: EncoderPreset)
        ensures
            final(self)@ == (FfmpegH264View { preset: preset.name@, ..old(self)@ }),
    {
        self.preset = preset.name;
    }

    /// Bitrate, keyframe interval, rate control and profile.
    pub fn parameters_definition(&self) -> (r: Vec<PropertyDef>)
        ensures
            defs_view(r@) == ffmpeg_h264_parameters(),
    {
        let rc = vec![
            string_pair("CBR", "CBR"),
            string_pair("VBR", "VBR"),
            string_pair("CRF", "CRF"),
            string_pair("CQP", "CQP"),
        ];
        let profiles = vec![
            string_pair("baseline", "Baseline"),
            string_pair("main", "Main"),
            string_pair("high", "High"),
        ];
        assert(pairs_view(rc@) =~= seq![("CBR"@, "CBR"@), ("VBR"@, "VBR"@), ("CRF"@, "CRF"@), ("CQP"@, "CQP"@)]);
        assert(pairs_view(profiles@) =~= h264_profile_choices());
        let r = vec![
            int_def("bitrate", "Bitrate (kbps)", 6000, F64_100_BITS, F64_50000_BITS),
            int_def("keyint", "Keyframe Interval (seconds)", 2, F64_ONE_BITS, F64_TWENTY_BITS),
            enum_def("rate_control", "Rate Control", "CBR", rc),
            enum_def("profile", "H.264 Profile", "high", profiles),
        ];
        assert(defs_view(r@) =~= ffmpeg_h264_parameters());
        r
    }

    /// The current value of a parameter.
    pub fn get_parameter(&self, name: &str) -> (r: Option<PropertyValue>)
        ensures
            match ffmpeg_h264_get_parameter_spec(self@, name@) {
                Some(v) => r matches Some(x) && x@ == v,
                None => r is None,
            },
    {
        if str_eq(name, "bitrate") {
            Some(PropertyValue::Int(self.bitrate as i64))
        } else if str_eq(name, "keyint") {
            Some(PropertyValue::Int(self.keyint as i64))
        } else if str_eq(name, "rate_control") {
            Some(PropertyValue::Enum(owned(rate_control_name(self.rate_control))))
        } else if str_eq(name, "profile") {
            Some(PropertyValue::Enum(self.profile.clone()))
        } else {
            None
        }
    }

    /// Changes a parameter; names or value kinds it does not know are ignored.
    pub fn set_parameter(&mut self, name: &str, value: PropertyValue)
        ensures
            final(self)@ == ffmpeg_h264_set_parameter_spec(old(self)@, name@, value@),
    {
        if str_eq(name, "bitrate") {
            if let PropertyValue::Int(b) = value {
                self.bitrate = b as u32;
            }
        } else if str_eq(name, "keyint") {
            if let PropertyValue::Int(k) = value {
                self.keyint = k as u32;
            }
        } else if str_eq(name, "rate_control") {
            if let PropertyValue::Enum(rc) = value {
                self.rate_control = if str_eq(rc.as_str(), "CBR") {
                    RateControlMode::CBR
                } else if str_eq(rc.as_str(), "VBR") {
                    RateControlMode::VBR
                } else if str_eq(rc.as_str(), "CRF") {
                    RateControlMode::CRF
                } else if str_eq(rc.as_str(), "CQP") {
                    RateControlMode::CQP
                } else {
                    RateControlMode::CBR
                };
            }
        } else if str_eq(name, "profile") {
            if let PropertyValue::Enum(p) = value {
                self.profile = p;
            }
        }
    }

    /// Takes the geometry of a video input and returns the `ffmpeg` command
    /// line to start; an audio input changes nothing and starts nothing. The
    /// encoder counts as initialised once `started` is called.
    pub fn initialize(&mut self, input: &MediaInfo) -> (r: Option<Vec<String>>)
        requires
            input matches MediaInfo::Video(v) ==> ffmpeg_h264_can_start(old(self)@, v.video),
        ensures
            match input {
                MediaInfo::Video(v) => {
                    &&& final(self)@ == (FfmpegH264View {
                        input_info: Some(v.video),
                        width: v.video.width,
                        height: v.video.height,
                        fps_num: v.video.fps_num,
                        fps_den: v.video.fps_den,
                        pixel_format: ffmpeg_pixel_format(v.video.format),
                        ..old(self)@
                    })
                    &&& r matches Some(args) && string_views(args@) == ffmpeg_h264_args(
                        old(self)@,
                        v.video,
                    )
                },
                MediaInfo::Audio(_) => final(self)@ == old(self)@ && r is None,
            },
    {
        match input {
            MediaInfo::Video(v) => {
                let info = v.video;
                self.input_info = Some(info);
                self.width = info.width;
                self.height = info.height;
                self.fps_num = info.fps_num;
                self.fps_den = info.fps_den;
                self.pixel_format = Self::pixel_format_str(info.format);
                let args = self.command_line();
                Some(args)
            },
            MediaInfo::Audio(_) => None,
        }
    }

    fn command_line(&self) -> (r: Vec<String>)
        requires
            self@.input_info matches Some(v) && ffmpeg_h264_can_start(self@, v)
                && self@.width == v.width && self@.height == v.height
                && self@.fps_num == v.fps_num && self@.fps_den == v.fps_den
                && self@.pixel_format == ffmpeg_pixel_format(v.format),
        ensures
            self@.input_info matches Some(v) && string_views(r@) == ffmpeg_h264_args(self@, v),
    {
        let ghost v = self@.input_info->0;
        let mut a: Vec<String> = Vec::new();
        push_arg(&mut a, "-f");
        push_arg(&mut a, "rawvideo");
        push_arg(&mut a, "-pix_fmt");
        push_arg(&mut a, self.pixel_format);
        push_arg(&mut a, "-s");
        push_owned_arg(&mut a, decimal_pair(self.width as u64, "x", self.height as u64));
        push_arg(&mut a, "-r");
        push_owned_arg(&mut a, decimal_pair(self.fps_num as u64, "/", self.fps_den as u64));
        push_arg(&mut a, "-i");
        push_arg(&mut a, "-");
        push_arg(&mut a, "-c:v");
        push_arg(&mut a, "libx264");
        push_arg(&mut a, "-preset");
        push_arg(&mut a, self.preset.as_str());
        push_arg(&mut a, "-profile:v");
        push_arg(&mut a, self.profile.as_str());
        push_arg(&mut a, "-tune");
        push_arg(&mut a, "zerolatency");
        let ghost head = string_views(a@);
        let br = decimal_with(self.bitrate as u64, "k");
        let br2 = decimal_with((self.bitrate * 2) as u64, "k");
        let br4 = decimal_with((self.bitrate * 4) as u64, "k");
        match self.rate_control {
            RateControlMode::CBR => {
                push_arg(&mut a, "-b:v");
                push_owned_arg(&mut a, br.clone());
                push_arg(&mut a, "-maxrate");
                push_owned_arg(&mut a, br);
                push_arg(&mut a, "-bufsize");
                push_owned_arg(&mut a, br2);
                push_arg(&mut a, "-x264-params");
                push_arg(&mut a, "nal-hrd=cbr:force-cfr=1");
            },
            RateControlMode::VBR => {
                push_arg(&mut a, "-b:v");
                push_owned_arg(&mut a, br);
                push_arg(&mut a, "-maxrate");
                push_owned_arg(&mut a, br2);
                push_arg(&mut a, "-bufsize");
                push_owned_arg(&mut a, br4);
            },
            RateControlMode::CRF => {
                push_arg(&mut a, "-crf");
                push_arg(&mut a, "23");
            },
            RateControlMode::CQP => {
                push_arg(&mut a, "-qp");
                push_arg(&mut a, "23");
            },
        }
        assert(string_views(a@) =~= head + x264_rate_args(self@.rate_control, self@.bitrate));
        let ghost mid = string_views(a@);
        let keyint = self.keyint * self.fps_num / self.fps_den;
        push_arg(&mut a, "-g");
        push_owned_arg(&mut a, decimal_string(keyint as u64));
        push_arg(&mut a, "-keyint_min");
        push_owned_arg(&mut a, decimal_string(self.keyint as u64));
        push_arg(&mut a, "-f");
        push_arg(&mut a, "h264");
        push_arg(&mut a, "-");
        assert(string_views(a@) =~= ffmpeg_h264_args(self@, v));
        a
    }

    /// Marks the encoder initialised once its process runs.
    pub fn started(&mut self)
        ensures
            final(self)@ == (FfmpegH264View { initialized: true, ..old(self)@ }),
    {
        self.initialized = true;
    }

    /// Wraps a chunk of encoder output into a packet stamped with the frame
    /// count (a key frame for the first), and counts the frame.
    pub fn output_packet(&mut self, data: Vec<u8>) -> (r: EncodedPacket)
        requires
            old(self)@.frame_count < i64::MAX,
        ensures
            r.data@ == data@,
            r.pts == old(self)@.frame_count,
            r.dts == old(self)@.frame_count,
            r.duration == 0,
            r.keyframe == (old(self)@.frame_count == 0),
            r.track == TrackId(0),
            final(self)@ == (FfmpegH264View { frame_count: (old(self)@.frame_count + 1) as i64, ..old(self)@ }),
    {
        let p = EncodedPacket {
            data,
            pts: self.frame_count,
            dts: self.frame_count,
            duration: 0,
            keyframe: self.frame_count == 0,
            track: TrackId(0),
        };
        self.frame_count = self.frame_count + 1;
        p
    }

    /// Counts a frame that produced no output yet.
    pub fn skip_frame(&mut self)
        requires
            old(self)@.frame_count < i64::MAX,
        ensures
            final(self)@ == (FfmpegH264View { frame_count: (old(self)@.frame_count + 1) as i64, ..old(self)@ }),
    {
        self.frame_count = self.frame_count + 1;
    }

    /// Wraps a chunk drained at the end into a packet stamped with the frame
    /// count.
    pub fn flushed_packet(&self, data: Vec<u8>) -> (r: EncodedPacket)
        ensures
            r.data@ == data@,
            r.pts == self@.frame_count,
            r.dts == self@.frame_count,
            r.duration == 0,
            !r.keyframe,
            r.track == TrackId(0),
    {
        EncodedPacket {
            data,
            pts: self.frame_count,
            dts: self.frame_count,
            duration: 0,
            keyframe: false,
            track: TrackId(0),
        }
    }

    /// Marks the encoder stopped after a flush.
    pub fn finish(&mut self)
        ensures
            final(self)@ == (FfmpegH264View { initialized: false, ..old(self)@ }),
    {
        self.initialized = false;
    }
}

/// Selecting any listed preset makes it the current one: `set_preset(p)`
/// stores `p.name`, and the preset found under that name is `p`.
pub proof fn lemma_ffmpeg_h264_listed_preset_selectable(i: int)
    requires
        0 <= i < 9,
    ensures
        find_preset_by_name(ffmpeg_h264_presets(), ffmpeg_h264_presets()[i].name) == Some(
            ffmpeg_h264_presets()[i],
        ),
{
    reveal_strlit("ultrafast");
    reveal_strlit("superfast");
    reveal_strlit("veryfast");
    reveal_strlit("faster");
    reveal_strlit("fast");
    reveal_strlit("medium");
    reveal_strlit("slow");
    reveal_strlit("slower");
    reveal_strlit("veryslow");
    let names = seq!["ultrafast"@, "superfast"@, "veryfast"@, "faster"@, "fast"@, "medium"@, "slow"@, "slower"@, "veryslow"@];
    assert(forall|j: int| 0 <= j < 9 ==> #[trigger] ffmpeg_h264_presets()[j].name == names[j]);
    assert forall|j: int, k: int| 0 <= j < k < 9 implies names[j] != names[k] by {
        if names[j].len() == names[k].len() {
            assert(names[j][0] != names[k][0] || names[j][1] != names[k][1] || names[j][4] != names[k][4]);
        }
    }
    reveal_with_fuel(find_preset_by_name, 10);
}

/// A parameter reads back as it was written: bitrate and keyframe interval
/// for values that fit in `u32`, any profile, and every rate-control mode.
pub proof fn lemma_ffmpeg_h264_parameter_read_after_write(
    s: FfmpegH264View,
    n: i64,
    profile: Seq<char>,
    rc: RateControlMode,
)
    requires
        0 <= n <= u32::MAX,
    ensures
        ffmpeg_h264_get_parameter_spec(
            ffmpeg_h264_set_parameter_spec(s, "bitrate"@, ValueView::Int(n)),
            "bitrate"@,
        ) == Some(ValueView::Int(n)),
        ffmpeg_h264_get_parameter_spec(
            ffmpeg_h264_set_parameter_spec(s, "keyint"@, ValueView::Int(n)),
            "keyint"@,
        ) == Some(ValueView::Int(n)),
        ffmpeg_h264_get_parameter_spec(
            ffmpeg_h264_set_parameter_spec(s, "profile"@, ValueView::Enum(profile)),
            "profile"@,
        ) == Some(ValueView::Enum(profile)),
        ffmpeg_h264_get_parameter_spec(
            ffmpeg_h264_set_parameter_spec(
                s,
                "rate_control"@,
                ValueView::Enum(rate_control_name_spec(rc)),
            ),
            "rate_control"@,
        ) == Some(ValueView::Enum(rate_control_name_spec(rc))),
{
    reveal_strlit("bitrate");
    reveal_strlit("keyint");
    reveal_strlit("rate_control");
    reveal_strlit("profile");
    reveal_strlit("CBR");
    reveal_strlit("VBR");
    reveal_strlit("CRF");
    reveal_strlit("CQP");
    assert("bitrate"@[0] != "keyint"@[0]);
    assert("bitrate"@[0] != "rate_control"@[0]);
    assert("bitrate"@[0] != "profile"@[0]);
    assert("keyint"@[0] != "rate_control"@[0]);
    assert("keyint"@[0] != "profile"@[0]);
    assert("rate_control"@[0] != "profile"@[0]);
    assert("CBR"@[0] != "VBR"@[0]);
    assert("CBR"@[1] != "CRF"@[1]);
    assert("CBR"@[1] != "CQP"@[1]);
    assert("VBR"@[0] != "CRF"@[0]);
    assert("VBR"@[0] != "CQP"@[0]);
    assert("CRF"@[1] != "CQP"@[1]);
}

} // verus!

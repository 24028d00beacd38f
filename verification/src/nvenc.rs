use vstd::prelude::*;
use crate::encoding::{
    MediaInfo, VideoEncodeInfo, find_preset_by_name, preset, preset_views, pv,
    rate_control_name, rate_control_name_spec, take_preset_with_name,
};
use crate::frame::EncodedPacket;
use crate::names::string_views;
use crate::ffmpeg_h264::{h264_profile_choices, kbits, keyint_frames};
use crate::property::{
    F64_ONE_BITS, F64_SEVEN_BITS, F64_ZERO_BITS, F64_100_BITS, F64_TWENTY_BITS, F64_50000_BITS, PropertyDef, PropertyDefView,
    PropertyValue, ValueView, defs_view, empty_json_object, enum_def, enum_def_view, int_def,
    int_def_view, pairs_view, string_pair,
};
use crate::text::{
    decimal, decimal_pair, decimal_string, decimal_with, owned, push_arg, push_owned_arg, str_eq,
};
use crate::types::{
    EncoderCapabilities, EncoderId, EncoderPreset, MediaType, PixelFormat, PresetView,
    RateControlMode, TrackId, VideoInfo,
};

verus! {

/// H.264 encoding on an NVIDIA GPU through an external `ffmpeg` process
/// running `h264_nvenc`. This type keeps the settings and the frame count and
/// computes the command line; the process itself is driven by its owner.
pub struct NvencH264Encoder {
    id: EncoderId,
    name: String,
    bitrate: u32,
    keyint: u32,
    rate_control: RateControlMode,
    preset: String,
    profile: String,
    gpu_index: u32,
    caps: EncoderCapabilities,
    frame_count: i64,
    initialized: bool,
    input_info: Option<VideoInfo>,
    width: u32,
    height: u32,
    fps_num: u32,
    fps_den: u32,
    pixel_format: &'static str,
}

/// Mathematical state of the FFmpeg H.264 encoder.
pub struct NvencH264View {
    pub id: EncoderId,
    pub name: Seq<char>,
    pub bitrate: u32,
    pub keyint: u32,
    pub rate_control: RateControlMode,
    pub preset: Seq<char>,
    pub profile: Seq<char>,
    pub gpu_index: u32,
    pub caps_max: (u32, u32, u32),
    pub caps_hardware: bool,
    pub caps_formats: Seq<PixelFormat>,
    pub frame_count: i64,
    pub initialized: bool,
    pub input_info: Option<VideoInfo>,
    pub width: u32,
    pub height: u32,
    pub fps_num: u32,
    pub fps_den: u32,
    pub pixel_format: Seq<char>,
}

impl View for NvencH264Encoder {
    type V = NvencH264View;

    closed spec fn view(&self) -> NvencH264View {
        NvencH264View {
            id: self.id,
            name: self.name@,
            bitrate: self.bitrate,
            keyint: self.keyint,
            rate_control: self.rate_control,
            preset: self.preset@,
            profile: self.profile@,
            gpu_index: self.gpu_index,
            caps_max: (self.caps.max_width, self.caps.max_height, self.caps.max_fps),
            caps_hardware: self.caps.supports_hardware,
            caps_formats: self.caps.supported_pixel_formats@,
            frame_count: self.frame_count,
            initialized: self.initialized,
            input_info: self.input_info,
            width: self.width,
            height: self.height,
            fps_num: self.fps_num,
            fps_den: self.fps_den,
            pixel_format: self.pixel_format@,
        }
    }
}

/// The FFmpeg name of the raw pixel format fed to NVENC (NV12 unless I420).
pub open spec fn nvenc_pixel_format(f: PixelFormat) -> Seq<char> {
    match f {
        PixelFormat::NV12 => "nv12"@,
        PixelFormat::I420 => "yuv420p"@,
        _ => "nv12"@,
    }
}

/// The seven NVENC presets, fastest first.
pub open spec fn nvenc_presets() -> Seq<PresetView> {
    seq![
        pv(0, "p1"@, "Fastest"@, 1, 7),
        pv(1, "p2"@, "Faster"@, 2, 6),
        pv(2, "p3"@, "Fast"@, 3, 5),
        pv(3, "p4"@, "Medium"@, 4, 4),
        pv(4, "p5"@, "Slow"@, 5, 3),
        pv(5, "p6"@, "Slower"@, 6, 2),
        pv(6, "p7"@, "Slowest"@, 7, 1),
    ]
}

/// The preset reported when the selected name is none of the presets.
pub open spec fn nvenc_fallback_preset() -> PresetView {
    pv(3, "p4"@, "Medium"@, 4, 4)
}

/// The tunable parameters of the NVENC encoder.
pub open spec fn nvenc_parameters() -> Seq<PropertyDefView> {
    seq![
        int_def_view("bitrate"@, "Bitrate (kbps)"@, 6000, F64_100_BITS, F64_50000_BITS),
        int_def_view("keyint"@, "Keyframe Interval (seconds)"@, 2, F64_ONE_BITS, F64_TWENTY_BITS),
        enum_def_view(
            "rate_control"@,
            "Rate Control"@,
            "CBR"@,
            seq![("CBR"@, "CBR"@), ("VBR"@, "VBR"@), ("CQP"@, "CQP"@)],
        ),
        enum_def_view("profile"@, "H.264 Profile"@, "high"@, h264_profile_choices()),
        int_def_view("gpu"@, "GPU Index"@, 0, F64_ZERO_BITS, F64_SEVEN_BITS),
    ]
}

/// The rate-control mode that the NVENC encoder takes from a name.
pub open spec fn nvenc_rate_control_from(s: Seq<char>) -> RateControlMode {
    if s == "CBR"@ {
        RateControlMode::CBR
    } else if s == "VBR"@ {
        RateControlMode::VBR
    } else if s == "CQP"@ {
        RateControlMode::CQP
    } else {
        RateControlMode::CBR
    }
}

/// What `get_parameter(name)` reports.
pub open spec fn nvenc_get_parameter_spec(s: NvencH264View, name: Seq<char>) -> Option<
    ValueView,
> {
    if name == "bitrate"@ {
        Some(ValueView::Int(s.bitrate as i64))
    } else if name == "keyint"@ {
        Some(ValueView::Int(s.keyint as i64))
    } else if name == "rate_control"@ {
        Some(ValueView::Enum(rate_control_name_spec(s.rate_control)))
    } else if name == "profile"@ {
        Some(ValueView::Enum(s.profile))
    } else if name == "gpu"@ {
        Some(ValueView::Int(s.gpu_index as i64))
    } else {
        None
    }
}

/// The state after `set_parameter(name, value)`.
pub open spec fn nvenc_set_parameter_spec(
    s: NvencH264View,
    name: Seq<char>,
    value: ValueView,
) -> NvencH264View {
    if name == "bitrate"@ {
        match value {
            ValueView::Int(b) => NvencH264View { bitrate: b as u32, ..s },
            _ => s,
        }
    } else if name == "keyint"@ {
        match value {
            ValueView::Int(k) => NvencH264View { keyint: k as u32, ..s },
            _ => s,
        }
    } else if name == "rate_control"@ {
        match value {
            ValueView::Enum(rc) => NvencH264View { rate_control: nvenc_rate_control_from(rc), ..s },
            _ => s,
        }
    } else if name == "profile"@ {
        match value {
            ValueView::Enum(p) => NvencH264View { profile: p, ..s },
            _ => s,
        }
    } else if name == "gpu"@ {
        match value {
            ValueView::Int(g) => NvencH264View { gpu_index: g as u32, ..s },
            _ => s,
        }
    } else {
        s
    }
}

/// The rate-control options that NVENC is given (none for CRF).
pub open spec fn nvenc_rate_args(rc: RateControlMode, bitrate: u32) -> Seq<Seq<char>> {
    match rc {
        RateControlMode::CBR => seq![
            "-b:v"@,
            kbits(bitrate as nat),
            "-maxrate"@,
            kbits(bitrate as nat),
            "-bufsize"@,
            kbits((bitrate * 2) as nat),
            "-rc"@,
            "cbr"@,
        ],
        RateControlMode::VBR => seq!["-b:v"@, kbits(bitrate as nat), "-rc"@, "vbr"@],
        RateControlMode::CQP => seq!["-rc"@, "constqp"@, "-cq"@, "23"@],
        RateControlMode::CRF => seq![],
    }
}

/// The `ffmpeg` command line that encodes raw frames from standard input to
/// an H.264 elementary stream on standard output with NVENC.
pub open spec fn nvenc_args(s: NvencH264View, v: VideoInfo) -> Seq<Seq<char>> {
    seq![
        "-f"@,
        "rawvideo"@,
        "-pix_fmt"@,
        nvenc_pixel_format(v.format),
        "-s"@,
        decimal(v.width as nat) + "x"@ + decimal(v.height as nat),
        "-r"@,
        decimal(v.fps_num as nat) + "/"@ + decimal(v.fps_den as nat),
        "-i"@,
        "-"@,
        "-c:v"@,
        "h264_nvenc"@,
        "-preset"@,
        s.preset,
        "-profile:v"@,
        s.profile,
        "-tune"@,
        "ll"@,
        "-gpu"@,
        decimal(s.gpu_index as nat),
    ] + nvenc_rate_args(s.rate_control, s.bitrate) + seq![
        "-g"@,
        decimal(keyint_frames(s.keyint, v.fps_num, v.fps_den)),
        "-keyint_min"@,
        decimal(s.keyint as nat),
        "-f"@,
        "h264"@,
        "-"@,
    ]
}

/// The settings under which `initialize` can compute the command line: the
/// doubled bitrate and the keyframe product fit in `u32`, and the frame
/// rate's denominator is not zero.
pub open spec fn nvenc_can_start(s: NvencH264View, v: VideoInfo) -> bool {
    &&& s.bitrate * 2 <= u32::MAX
    &&& s.keyint * v.fps_num <= u32::MAX
    &&& v.fps_den != 0
}

impl NvencH264Encoder {
    /// A new encoder: 6000 kbps CBR, keyframe every 2 s, preset `p4`, profile
    /// `high`, GPU 0, 1920x1080 at 30 fps in NV12 until initialised.
    pub fn new(id: EncoderId) -> (r: NvencH264Encoder)
        ensures
            r@.id == id,
            r@.name == "NVIDIA NVENC H.264"@,
            r@.bitrate == 6000,
            r@.keyint == 2,
            r@.rate_control == RateControlMode::CBR,
            r@.preset == "p4"@,
            r@.profile == "high"@,
            r@.gpu_index == 0,
            r@.caps_max == (4096u32, 2160u32, 120u32),
            r@.caps_hardware,
            r@.caps_formats == seq![PixelFormat::NV12, PixelFormat::I420],
            r@.frame_count == 0,
            !r@.initialized,
            r@.input_info is None,
            r@.width == 1920,
            r@.height == 1080,
            r@.fps_num == 30,
            r@.fps_den == 1,
            r@.pixel_format == "nv12"@,
    {
        let r = NvencH264Encoder {
            id,
            name: owned("NVIDIA NVENC H.264"),
            bitrate: 6000,
            keyint: 2,
            rate_control: RateControlMode::CBR,
            preset: owned("p4"),
            profile: owned("high"),
            gpu_index: 0,
            caps: EncoderCapabilities {
                max_width: 4096,
                max_height: 2160,
                max_fps: 120,
                supports_hardware: true,
                supported_pixel_formats: vec![PixelFormat::NV12, PixelFormat::I420],
            },
            frame_count: 0,
            initialized: false,
            input_info: None,
            width: 1920,
            height: 1080,
            fps_num: 30,
            fps_den: 1,
            pixel_format: "nv12",
        };
        assert(r@.caps_formats =~= seq![PixelFormat::NV12, PixelFormat::I420]);
        r
    }

    /// The FFmpeg name of the pixel format fed to NVENC.
    pub fn pixel_format_str(format: PixelFormat) -> (r: &'static str)
        ensures
            r@ == nvenc_pixel_format(format),
    {
        match format {
            PixelFormat::NV12 => "nv12",
            PixelFormat::I420 => "yuv420p",
            _ => "nv12",
        }
    }

    /// How many GPUs can encode: one where NVENC is available, else none.
    pub fn get_gpu_count(nvenc_available: bool) -> (r: u32)
        ensures
            r == (if nvenc_available {
                1u32
            } else {
                0u32
            }),
    {
        if !nvenc_available {
            0
        } else {
            1
        }
    }

    pub fn id(&self) -> (r: EncoderId)
        ensures
            r == self@.id,
    {
        self.id
    }

    pub fn name(&self) -> (r: &str)
        ensures
            r@ == self@.name,
    {
        self.name.as_str()
    }

    pub fn codec_name(&self) -> (r: &'static str)
        ensures
            r@ == "h264"@,
    {
        "h264"
    }

    pub fn media_type(&self) -> (r: MediaType)
        ensures
            r == MediaType::Video,
    {
        MediaType::Video
    }

    /// Whether `initialize` can compute the command line for this video.
    pub fn can_start(&self, v: &VideoInfo) -> (r: bool)
        ensures
            r == nvenc_can_start(self@, *v),
    {
        let k = self.keyint as u64;
        let f = v.fps_num as u64;
        assert(k * f <= 0xffff_ffff_ffff_ffff) by (nonlinear_arith)
            requires
                k <= 0xffff_ffff,
                f <= 0xffff_ffff,
        ;
        (self.bitrate as u64) * 2 <= 4294967295u64 && k * f <= 4294967295u64 && v.fps_den != 0
    }

    /// How many frames were counted.
    pub fn frame_count(&self) -> (r: i64)
        ensures
            r == self@.frame_count,
    {
        self.frame_count
    }

    pub fn is_initialized(&self) -> (r: bool)
        ensures
            r == self@.initialized,
    {
        self.initialized
    }

    /// The video the encoder was initialised with, under the name `h264_nvenc`.
    pub fn get_input_info(&self) -> (r: Option<MediaInfo>)
        ensures
            match self@.input_info {
                Some(v) => r matches Some(MediaInfo::Video(e)) && e.video == v
                    && e.encoder_name@ == "h264_nvenc"@,
                None => r is None,
            },
    {
        match self.input_info {
            Some(v) => Some(
                MediaInfo::Video(
                    VideoEncodeInfo {
                        video: v,
                        encoder_name: owned("h264_nvenc"),
                        codec_params: empty_json_object(),
                    },
                ),
            ),
            None => None,
        }
    }

    pub fn get_output_info(&self) -> (r: Option<MediaInfo>)
        ensures
            r is None,
    {
        None
    }

    pub fn get_caps(&self) -> (r: EncoderCapabilities)
        ensures
            (r.max_width, r.max_height, r.max_fps) == self@.caps_max,
            r.supports_hardware == self@.caps_hardware,
            r.supported_pixel_formats@ == self@.caps_formats,
    {
        self.caps.clone()
    }

    /// The seven NVENC presets, `p1` to `p7`.
    pub fn get_presets(&self) -> (r: Vec<EncoderPreset>)
        ensures
            preset_views(r@) == nvenc_presets(),
    {
        let r = vec![
            preset(0, "p1", "Fastest", 1, 7),
            preset(1, "p2", "Faster", 2, 6),
            preset(2, "p3", "Fast", 3, 5),
            preset(3, "p4", "Medium", 4, 4),
            preset(4, "p5", "Slow", 5, 3),
            preset(5, "p6", "Slower", 6, 2),
            preset(6, "p7", "Slowest", 7, 1),
        ];
        assert(preset_views(r@) =~= nvenc_presets());
        r
    }

    /// The preset named like the selected one, or `p4`.
    pub fn get_current_preset(&self) -> (r: EncoderPreset)
        ensures
            r@ == match find_preset_by_name(nvenc_presets(), self@.preset) {
                Some(p) => p,
                None => nvenc_fallback_preset(),
            },
    {
        match take_preset_with_name(self.get_presets(), &self.preset) {
            Some(p) => p,
            None => preset(3, "p4", "Medium", 4, 4),
        }
    }

    /// Selects a preset by its name.
    pub fn set_preset(&mut self, preset: EncoderPreset)
        ensures
            final(self)@ == (NvencH264View { preset: preset.name@, ..old(self)@ }),
    {
        self.preset = preset.name;
    }

    /// Bitrate, keyframe interval, rate control, profile and GPU.
    pub fn parameters_definition(&self) -> (r: Vec<PropertyDef>)
        ensures
            defs_view(r@) == nvenc_parameters(),
    {
        let rc = vec![string_pair("CBR", "CBR"), string_pair("VBR", "VBR"), string_pair("CQP", "CQP")];
        let profiles = vec![
            string_pair("baseline", "Baseline"),
            string_pair("main", "Main"),
            string_pair("high", "High"),
        ];
        assert(pairs_view(rc@) =~= seq![("CBR"@, "CBR"@), ("VBR"@, "VBR"@), ("CQP"@, "CQP"@)]);
        assert(pairs_view(profiles@) =~= h264_profile_choices());
        let r = vec![
            int_def("bitrate", "Bitrate (kbps)", 6000, F64_100_BITS, F64_50000_BITS),
            int_def("keyint", "Keyframe Interval (seconds)", 2, F64_ONE_BITS, F64_TWENTY_BITS),
            enum_def("rate_control", "Rate Control", "CBR", rc),
            enum_def("profile", "H.264 Profile", "high", profiles),
            int_def("gpu", "GPU Index", 0, F64_ZERO_BITS, F64_SEVEN_BITS),
        ];
        assert(defs_view(r@) =~= nvenc_parameters());
        r
    }

    /// The current value of a parameter.
    pub fn get_parameter(&self, name: &str) -> (r: Option<PropertyValue>)
        ensures
            match nvenc_get_parameter_spec(self@, name@) {
                Some(v) => r matches Some(x) && x@ == v,
                None => r is None,
            },
    {
        if str_eq(name, "bitrate") {
            Some(PropertyValue::Int(self.bitrate as i64))
        } else if str_eq(name, "keyint") {
            Some(PropertyValue::Int(self.keyint as i64))
        } else if str_eq(name, "rate_control") {
            Some(PropertyValue::Enum(owned(rate_control_name(self.rate_control))))
        } else if str_eq(name, "profile") {
            Some(PropertyValue::Enum(self.profile.clone()))
        } else if str_eq(name, "gpu") {
            Some(PropertyValue::Int(self.gpu_index as i64))
        } else {
            None
        }
    }

    /// Changes a parameter; names or value kinds it does not know are ignored.
    pub fn set_parameter(&mut self, name: &str, value: PropertyValue)
        ensures
            final(self)@ == nvenc_set_parameter_spec(old(self)@, name@, value@),
    {
        if str_eq(name, "bitrate") {
            if let PropertyValue::Int(b) = value {
                self.bitrate = b as u32;
            }
        } else if str_eq(name, "keyint") {
            if let PropertyValue::Int(k) = value {
                self.keyint = k as u32;
            }
        } else if str_eq(name, "rate_control") {
            if let PropertyValue::Enum(rc) = value {
                self.rate_control = if str_eq(rc.as_str(), "CBR") {
                    RateControlMode::CBR
                } else if str_eq(rc.as_str(), "VBR") {
                    RateControlMode::VBR
                } else if str_eq(rc.as_str(), "CQP") {
                    RateControlMode::CQP
                } else {
                    RateControlMode::CBR
                };
            }
        } else if str_eq(name, "profile") {
            if let PropertyValue::Enum(p) = value {
                self.profile = p;
            }
        } else if str_eq(name, "gpu") {
            if let PropertyValue::Int(g) = value {
                self.gpu_index = g as u32;
            }
        }
    }

    /// Takes the geometry of a video input and returns the `ffmpeg` command
    /// line to start; an audio input changes nothing and starts nothing. The
    /// encoder counts as initialised once `started` is called.
    pub fn initialize(&mut self, input: &MediaInfo) -> (r: Option<Vec<String>>)
        requires
            input matches MediaInfo::Video(v) ==> nvenc_can_start(old(self)@, v.video),
        ensures
            match input {
                MediaInfo::Video(v) => {
                    &&& final(self)@ == (NvencH264View {
                        input_info: Some(v.video),
                        width: v.video.width,
                        height: v.video.height,
                        fps_num: v.video.fps_num,
                        fps_den: v.video.fps_den,
                        pixel_format: nvenc_pixel_format(v.video.format),
                        ..old(self)@
                    })
                    &&& r matches Some(args) && string_views(args@) == nvenc_args(
                        old(self)@,
                        v.video,
                    )
                },
                MediaInfo::Audio(_) => final(self)@ == old(self)@ && r is None,
            },
    {
        match input {
            MediaInfo::Video(v) => {
                let info = v.video;
                self.input_info = Some(info);
                self.width = info.width;
                self.height = info.height;
                self.fps_num = info.fps_num;
                self.fps_den = info.fps_den;
                self.pixel_format = Self::pixel_format_str(info.format);
                let args = self.command_line();
                Some(args)
            },
            MediaInfo::Audio(_) => None,
        }
    }

    fn command_line(&self) -> (r: Vec<String>)
        requires
            self@.input_info matches Some(v) && nvenc_can_start(self@, v)
                && self@.width == v.width && self@.height == v.height
                && self@.fps_num == v.fps_num && self@.fps_den == v.fps_den
                && self@.pixel_format == nvenc_pixel_format(v.format),
        ensures
            self@.input_info matches Some(v) && string_views(r@) == nvenc_args(self@, v),
    {
        let ghost v = self@.input_info->0;
        let mut a: Vec<String> = Vec::new();
        push_arg(&mut a, "-f");
        push_arg(&mut a, "rawvideo");
        push_arg(&mut a, "-pix_fmt");
        push_arg(&mut a, self.pixel_format);
        push_arg(&mut a, "-s");
        push_owned_arg(&mut a, decimal_pair(self.width as u64, "x", self.height as u64));
        push_arg(&mut a, "-r");
        push_owned_arg(&mut a, decimal_pair(self.fps_num as u64, "/", self.fps_den as u64));
        push_arg(&mut a, "-i");
        push_arg(&mut a, "-");
        push_arg(&mut a, "-c:v");
        push_arg(&mut a, "h264_nvenc");
        push_arg(&mut a, "-preset");
        push_arg(&mut a, self.preset.as_str());
        push_arg(&mut a, "-profile:v");
        push_arg(&mut a, self.profile.as_str());
        push_arg(&mut a, "-tune");
        push_arg(&mut a, "ll");
        push_arg(&mut a, "-gpu");
        push_owned_arg(&mut a, decimal_string(self.gpu_index as u64));
        let ghost head = string_views(a@);
        let br = decimal_with(self.bitrate as u64, "k");
        let br2 = decimal_with((self.bitrate * 2) as u64, "k");
        match self.rate_control {
            RateControlMode::CBR => {
                push_arg(&mut a, "-b:v");
                push_owned_arg(&mut a, br.clone());
                push_arg(&mut a, "-maxrate");
                push_owned_arg(&mut a, br);
                push_arg(&mut a, "-bufsize");
                push_owned_arg(&mut a, br2);
                push_arg(&mut a, "-rc");
                push_arg(&mut a, "cbr");
            },
            RateControlMode::VBR => {
                push_arg(&mut a, "-b:v");
                push_owned_arg(&mut a, br);
                push_arg(&mut a, "-rc");
                push_arg(&mut a, "vbr");
            },
            RateControlMode::CQP => {
                push_arg(&mut a, "-rc");
                push_arg(&mut a, "constqp");
                push_arg(&mut a, "-cq");
                push_arg(&mut a, "23");
            },
            RateControlMode::CRF => {},
        }
        assert(string_views(a@) =~= head + nvenc_rate_args(self@.rate_control, self@.bitrate));
        let ghost mid = string_views(a@);
        let keyint = self.keyint * self.fps_num / self.fps_den;
        push_arg(&mut a, "-g");
        push_owned_arg(&mut a, decimal_string(keyint as u64));
        push_arg(&mut a, "-keyint_min");
        push_owned_arg(&mut a, decimal_string(self.keyint as u64));
        push_arg(&mut a, "-f");
        push_arg(&mut a, "h264");
        push_arg(&mut a, "-");
        assert(string_views(a@) =~= nvenc_args(self@, v));
        a
    }

    /// Marks the encoder initialised once its process runs.
    pub fn started(&mut self)
        ensures
            final(self)@ == (NvencH264View { initialized: true, ..old(self)@ }),
    {
        self.initialized = true;
    }

    /// Wraps a chunk of encoder output into a packet stamped with the frame
    /// count (a key frame for the first), and counts the frame.
    pub fn output_packet(&mut self, data: Vec<u8>) -> (r: EncodedPacket)
        requires
            old(self)@.frame_count < i64::MAX,
        ensures
            r.data@ == data@,
            r.pts == old(self)@.frame_count,
            r.dts == old(self)@.frame_count,
            r.duration == 0,
            r.keyframe == (old(self)@.frame_count == 0),
            r.track == TrackId(0),
            final(self)@ == (NvencH264View { frame_count: (old(self)@.frame_count + 1) as i64, ..old(self)@ }),
    {
        let p = EncodedPacket {
            data,
            pts: self.frame_count,
            dts: self.frame_count,
            duration: 0,
            keyframe: self.frame_count == 0,
            track: TrackId(0),
        };
        self.frame_count = self.frame_count + 1;
        p
    }

    /// Counts a frame that produced no output yet.
    pub fn skip_frame(&mut self)
        requires
            old(self)@.frame_count < i64::MAX,
        ensures
            final(self)@ == (NvencH264View { frame_count: (old(self)@.frame_count + 1) as i64, ..old(self)@ }),
    {
        self.frame_count = self.frame_count + 1;
    }

    /// Wraps a chunk drained at the end into a packet stamped with the frame
    /// count.
    pub fn flushed_packet(&self, data: Vec<u8>) -> (r: EncodedPacket)
        ensures
            r.data@ == data@,
            r.pts == self@.frame_count,
            r.dts == self@.frame_count,
            r.duration == 0,
            !r.keyframe,
            r.track == TrackId(0),
    {
        EncodedPacket {
            data,
            pts: self.frame_count,
            dts: self.frame_count,
            duration: 0,
            keyframe: false,
            track: TrackId(0),
        }
    }

    /// Marks the encoder stopped after a flush.
    pub fn finish(&mut self)
        ensures
            final(self)@ == (NvencH264View { initialized: false, ..old(self)@ }),
    {
        self.initialized = false;
    }
}

/// Selecting any listed preset makes it the current one: `set_preset(p)`
/// stores `p.name`, and the preset found under that name is `p`.
pub proof fn lemma_nvenc_listed_preset_selectable(i: int)
    requires
        0 <= i < 7,
    ensures
        find_preset_by_name(nvenc_presets(), nvenc_presets()[i].name) == Some(nvenc_presets()[i]),
{
    reveal_strlit("p1");
    reveal_strlit("p2");
    reveal_strlit("p3");
    reveal_strlit("p4");
    reveal_strlit("p5");
    reveal_strlit("p6");
    reveal_strlit("p7");
    let names = seq!["p1"@, "p2"@, "p3"@, "p4"@, "p5"@, "p6"@, "p7"@];
    assert(forall|j: int| 0 <= j < 7 ==> #[trigger] nvenc_presets()[j].name == names[j]);
    assert forall|j: int, k: int| 0 <= j < k < 7 implies names[j] != names[k] by {
        assert(names[j][1] != names[k][1]);
    }
    reveal_with_fuel(find_preset_by_name, 8);
}

/// A parameter reads back as it was written: bitrate, keyframe interval and
/// GPU for values that fit in `u32`, any profile, and the rate-control modes
/// the encoder offers.
pub proof fn lemma_nvenc_parameter_read_after_write(
    s: NvencH264View,
    n: i64,
    profile: Seq<char>,
    rc: RateControlMode,
)
    requires
        0 <= n <= u32::MAX,
        rc != RateControlMode::CRF,
    ensures
        nvenc_get_parameter_spec(nvenc_set_parameter_spec(s, "bitrate"@, ValueView::Int(n)), "bitrate"@)
            == Some(ValueView::Int(n)),
        nvenc_get_parameter_spec(nvenc_set_parameter_spec(s, "keyint"@, ValueView::Int(n)), "keyint"@)
            == Some(ValueView::Int(n)),
        nvenc_get_parameter_spec(nvenc_set_parameter_spec(s, "gpu"@, ValueView::Int(n)), "gpu"@)
            == Some(ValueView::Int(n)),
        nvenc_get_parameter_spec(
            nvenc_set_parameter_spec(s, "profile"@, ValueView::Enum(profile)),
            "profile"@,
        ) == Some(ValueView::Enum(profile)),
        nvenc_get_parameter_spec(
            nvenc_set_parameter_spec(s, "rate_control"@, ValueView::Enum(rate_control_name_spec(rc))),
            "rate_control"@,
        ) == Some(ValueView::Enum(rate_control_name_spec(rc))),
{
    reveal_strlit("bitrate");
    reveal_strlit("keyint");
    reveal_strlit("rate_control");
    reveal_strlit("profile");
    reveal_strlit("gpu");
    reveal_strlit("CBR");
    reveal_strlit("VBR");
    reveal_strlit("CQP");
    let names = seq!["bitrate"@, "keyint"@, "rate_control"@, "profile"@, "gpu"@];
    assert forall|j: int, k: int| 0 <= j < k < 5 implies names[j] != names[k] by {
        assert(names[j][0] != names[k][0]);
    }
    assert(names[0] != names[1] && names[0] != names[2] && names[0] != names[3] && names[0] != names[4]);
    assert(names[1] != names[2] && names[1] != names[3] && names[1] != names[4]);
    assert(names[2] != names[3] && names[2] != names[4] && names[3] != names[4]);
    assert("CBR"@[0] != "VBR"@[0]);
    assert("CBR"@[1] != "CQP"@[1]);
    assert("VBR"@[0] != "CQP"@[0]);
}

} // verus!

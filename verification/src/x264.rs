use vstd::prelude::*;
use crate::encoding::{
    MediaInfo, VideoEncodeInfo, find_preset_by_id, preset, preset_views, pv,
    rate_control_name, rate_control_name_spec, take_preset_with_id,
};
use crate::frame::{EncodedPacket, MediaData, zeroed_bytes};
use crate::property::{
    F64_ONE_BITS, F64_100_BITS, F64_TWENTY_BITS, F64_50000_BITS, PropertyDef, PropertyDefView,
    PropertyValue, ValueView, defs_view, empty_json_object, enum_def, enum_def_view, int_def,
    int_def_view, string_pair,
};
use crate::text::{owned, str_eq};
use crate::types::{
    EncoderCapabilities, EncoderId, EncoderPreset, MediaType, PixelFormat, PresetView,
    RateControlMode, TrackId, VideoInfo,
};

verus! {

/// Software H.264 encoder model: keeps its settings and produces placeholder
/// packets sized from the bitrate.
pub struct X264Encoder {
    id: EncoderId,
    name: String,
    preset: u32,
    bitrate: u32,
    keyint: u32,
    rate_control: RateControlMode,
    caps: EncoderCapabilities,
    initialized: bool,
    input_info: Option<VideoInfo>,
}

/// Mathematical state of an x264 encoder.
pub struct X264View {
    pub id: EncoderId,
    pub name: Seq<char>,
    pub preset: u32,
    pub bitrate: u32,
    pub keyint: u32,
    pub rate_control: RateControlMode,
    pub caps_max: (u32, u32, u32),
    pub caps_hardware: bool,
    pub caps_formats: Seq<PixelFormat>,
    pub initialized: bool,
    pub input_info: Option<VideoInfo>,
}

impl View for X264Encoder {
    type V = X264View;

    closed spec fn view(&self) -> X264View {
        X264View {
            id: self.id,
            name: self.name@,
            preset: self.preset,
            bitrate: self.bitrate,
            keyint: self.keyint,
            rate_control: self.rate_control,
            caps_max: (self.caps.max_width, self.caps.max_height, self.caps.max_fps),
            caps_hardware: self.caps.supports_hardware,
            caps_formats: self.caps.supported_pixel_formats@,
            initialized: self.initialized,
            input_info: self.input_info,
        }
    }
}

/// The nine x264 presets, fastest first.
pub open spec fn x264_presets() -> Seq<PresetView> {
    seq![
        pv(0, "ultrafast"@, "Fastest encoding, lower quality"@, 1, 9),
        pv(1, "superfast"@, "Very fast encoding"@, 2, 8),
        pv(2, "veryfast"@, "Fast encoding"@, 3, 7),
        pv(3, "faster"@, "Faster encoding"@, 4, 6),
        pv(4, "fast"@, "Quick encoding"@, 5, 5),
        pv(5, "medium"@, "Balancedencoding and quality"@, 6, 5),
        pv(6, "slow"@, "Slower encoding, better quality"@, 7, 3),
        pv(7, "slower"@, "Much slower encoding, high quality"@, 8, 2),
        pv(8, "veryslow"@, "Slowest encoding, best quality"@, 9, 1),
    ]
}

/// The preset reported when the selected id names none of the presets.
pub open spec fn x264_fallback_preset() -> PresetView {
    pv(5, "medium"@, "Balanced"@, 6, 5)
}

/// The x264 preset name of a preset index (`medium` for unknown indices).
pub open spec fn x264_preset_name_spec(p: u32) -> Seq<char> {
    if p == 0 {
        "ultrafast"@
    } else if p == 1 {
        "superfast"@
    } else if p == 2 {
        "veryfast"@
    } else if p == 3 {
        "faster"@
    } else if p == 4 {
        "fast"@
    } else if p == 5 {
        "medium"@
    } else if p == 6 {
        "slow"@
    } else if p == 7 {
        "slower"@
    } else if p == 8 {
        "veryslow"@
    } else {
        "medium"@
    }
}

/// The tunable parameters of the x264 encoder.
pub open spec fn x264_parameters() -> Seq<PropertyDefView> {
    seq![
        int_def_view("bitrate"@, "Bitrate (kbps)"@, 6000, F64_100_BITS, F64_50000_BITS),
        int_def_view("keyint"@, "Keyframe Interval (seconds)"@, 2, F64_ONE_BITS, F64_TWENTY_BITS),
        enum_def_view(
            "rate_control"@,
            "Rate Control"@,
            "CBR"@,
            seq![("CBR"@, "CBR"@), ("VBR"@, "VBR"@), ("CRF"@, "CRF"@)],
        ),
    ]
}

/// The rate-control mode that the x264 encoder takes from a name.
pub open spec fn x264_rate_control_from(s: Seq<char>) -> RateControlMode {
    if s == "CBR"@ {
        RateControlMode::CBR
    } else if s == "VBR"@ {
        RateControlMode::VBR
    } else if s == "CRF"@ {
        RateControlMode::CRF
    } else {
        RateControlMode::CBR
    }
}

/// The state after `set_parameter(name, value)`: a known name with a value of
/// the matching kind updates its setting (integers truncated to `u32`),
/// anything else leaves the state as it was.
pub open spec fn x264_set_parameter_spec(s: X264View, name: Seq<char>, value: ValueView) -> X264View {
    if name == "bitrate"@ {
        match value {
            ValueView::Int(b) => X264View { bitrate: b as u32, ..s },
            _ => s,
        }
    } else if name == "keyint"@ {
        match value {
            ValueView::Int(k) => X264View { keyint: k as u32, ..s },
            _ => s,
        }
    } else if name == "rate_control"@ {
        match value {
            ValueView::Enum(rc) => X264View { rate_control: x264_rate_control_from(rc), ..s },
            _ => s,
        }
    } else {
        s
    }
}

/// What `get_parameter(name)` reports.
pub open spec fn x264_get_parameter_spec(s: X264View, name: Seq<char>) -> Option<ValueView> {
    if name == "bitrate"@ {
        Some(ValueView::Int(s.bitrate as i64))
    } else if name == "keyint"@ {
        Some(ValueView::Int(s.keyint as i64))
    } else if name == "rate_control"@ {
        Some(ValueView::Enum(rate_control_name_spec(s.rate_control)))
    } else {
        None
    }
}

/// Size of the placeholder packet produced for one frame.
pub open spec fn x264_packet_size(bitrate: u32) -> nat {
    (bitrate / 8 / 30) as nat
}

impl X264Encoder {
    pub closed spec fn initial(id: EncoderId) -> X264View {
        X264View {
            id,
            name: "x264"@,
            preset: 3,
            bitrate: 6000,
            keyint: 2,
            rate_control: RateControlMode::CBR,
            caps_max: (4096, 2160, 120),
            caps_hardware: false,
            caps_formats: seq![PixelFormat::NV12, PixelFormat::I420, PixelFormat::I444],
            initialized: false,
            input_info: None,
        }
    }

    /// A new encoder: preset 3 (`faster`), 6000 kbps CBR, keyframe every 2 s.
    pub fn new(id: EncoderId) -> (r: X264Encoder)
        ensures
            r@ == X264Encoder::initial(id),
            r@.name == "x264"@,
            r@.preset == 3,
            r@.bitrate == 6000,
            r@.keyint == 2,
            r@.rate_control == RateControlMode::CBR,
            !r@.initialized,
            r@.input_info is None,
    {
        let r = X264Encoder {
            id,
            name: owned("x264"),
            preset: 3,
            bitrate: 6000,
            keyint: 2,
            rate_control: RateControlMode::CBR,
            caps: EncoderCapabilities {
                max_width: 4096,
                max_height: 2160,
                max_fps: 120,
                supports_hardware: false,
                supported_pixel_formats: vec![PixelFormat::NV12, PixelFormat::I420, PixelFormat::I444],
            },
            initialized: false,
            input_info: None,
        };
        assert(r@.caps_formats =~= seq![PixelFormat::NV12, PixelFormat::I420, PixelFormat::I444]);
        r
    }

    /// The x264 name of the selected preset.
    pub fn preset_name(&self) -> (r: &'static str)
        ensures
            r@ == x264_preset_name_spec(self@.preset),
    {
        match self.preset {
            0 => "ultrafast",
            1 => "superfast",
            2 => "veryfast",
            3 => "faster",
            4 => "fast",
            5 => "medium",
            6 => "slow",
            7 => "slower",
            8 => "veryslow",
            _ => "medium",
        }
    }

    pub fn id(&self) -> (r: EncoderId)
        ensures
            r == self@.id,
    {
        self.id
    }

    pub fn name(&self) -> (r: &str)
        ensures
            r@ == self@.name,
    {
        self.name.as_str()
    }

    pub fn codec_name(&self) -> (r: &'static str)
        ensures
            r@ == "h264"@,
    {
        "h264"
    }

    pub fn media_type(&self) -> (r: MediaType)
        ensures
            r == MediaType::Video,
    {
        MediaType::Video
    }

    /// The video the encoder was initialised with, under the name `x264`.
    pub fn get_input_info(&self) -> (r: Option<MediaInfo>)
        ensures
            match self@.input_info {
                Some(v) => r matches Some(MediaInfo::Video(e)) && e.video == v
                    && e.encoder_name@ == "x264"@,
                None => r is None,
            },
    {
        match self.input_info {
            Some(v) => Some(
                MediaInfo::Video(
                    VideoEncodeInfo {
                        video: v,
                        encoder_name: owned("x264"),
                        codec_params: empty_json_object(),
                    },
                ),
            ),
            None => None,
        }
    }

    pub fn get_output_info(&self) -> (r: Option<MediaInfo>)
        ensures
            r is None,
    {
        None
    }

    pub fn get_caps(&self) -> (r: EncoderCapabilities)
        ensures
            (r.max_width, r.max_height, r.max_fps) == self@.caps_max,
            r.supports_hardware == self@.caps_hardware,
            r.supported_pixel_formats@ == self@.caps_formats,
    {
        self.caps.clone()
    }

    /// The nine presets, from `ultrafast` to `veryslow`.
    pub fn get_presets(&self) -> (r: Vec<EncoderPreset>)
        ensures
            preset_views(r@) == x264_presets(),
    {
        let r = vec![
            preset(0, "ultrafast", "Fastest encoding, lower quality", 1, 9),
            preset(1, "superfast", "Very fast encoding", 2, 8),
            preset(2, "veryfast", "Fast encoding", 3, 7),
            preset(3, "faster", "Faster encoding", 4, 6),
            preset(4, "fast", "Quick encoding", 5, 5),
            preset(5, "medium", "Balancedencoding and quality", 6, 5),
            preset(6, "slow", "Slower encoding, better quality", 7, 3),
            preset(7, "slower", "Much slower encoding, high quality", 8, 2),
            preset(8, "veryslow", "Slowest encoding, best quality", 9, 1),
        ];
        assert(preset_views(r@) =~= x264_presets());
        r
    }

    /// The preset whose id is the selected one, or `medium` ("Balanced").
    pub fn get_current_preset(&self) -> (r: EncoderPreset)
        ensures
            r@ == match find_preset_by_id(x264_presets(), self@.preset) {
                Some(p) => p,
                None => x264_fallback_preset(),
            },
    {
        match take_preset_with_id(self.get_presets(), self.preset) {
            Some(p) => p,
            None => preset(5, "medium", "Balanced", 6, 5),
        }
    }

    /// Selects a preset by its id.
    pub fn set_preset(&mut self, preset: EncoderPreset)
        ensures
            final(self)@ == (X264View { preset: preset.id, ..old(self)@ }),
    {
        self.preset = preset.id;
    }

    /// Bitrate, keyframe interval and rate control.
    pub fn parameters_definition(&self) -> (r: Vec<PropertyDef>)
        ensures
            defs_view(r@) == x264_parameters(),
    {
        let choices = vec![string_pair("CBR", "CBR"), string_pair("VBR", "VBR"), string_pair("CRF", "CRF")];
        let r = vec![
            int_def("bitrate", "Bitrate (kbps)", 6000, F64_100_BITS, F64_50000_BITS),
            int_def("keyint", "Keyframe Interval (seconds)", 2, F64_ONE_BITS, F64_TWENTY_BITS),
            enum_def("rate_control", "Rate Control", "CBR", choices),
        ];
        assert(crate::property::pairs_view(choices@) =~= seq![("CBR"@, "CBR"@), ("VBR"@, "VBR"@), ("CRF"@, "CRF"@)]);
        assert(defs_view(r@) =~= x264_parameters());
        r
    }

    /// The current value of a parameter.
    pub fn get_parameter(&self, name: &str) -> (r: Option<PropertyValue>)
        ensures
            match x264_get_parameter_spec(self@, name@) {
                Some(v) => r matches Some(x) && x@ == v,
                None => r is None,
            },
    {
        if str_eq(name, "bitrate") {
            Some(PropertyValue::Int(self.bitrate as i64))
        } else if str_eq(name, "keyint") {
            Some(PropertyValue::Int(self.keyint as i64))
        } else if str_eq(name, "rate_control") {
            Some(PropertyValue::Enum(owned(rate_control_name(self.rate_control))))
        } else {
            None
        }
    }

    /// Changes a parameter; names or value kinds it does not know are ignored.
    pub fn set_parameter(&mut self, name: &str, value: PropertyValue)
        ensures
            final(self)@ == x264_set_parameter_spec(old(self)@, name@, value@),
    {
        if str_eq(name, "bitrate") {
            if let PropertyValue::Int(b) = value {
                self.bitrate = b as u32;
            }
        } else if str_eq(name, "keyint") {
            if let PropertyValue::Int(k) = value {
                self.keyint = k as u32;
            }
        } else if str_eq(name, "rate_control") {
            if let PropertyValue::Enum(rc) = value {
                self.rate_control = if str_eq(rc.as_str(), "CBR") {
                    RateControlMode::CBR
                } else if str_eq(rc.as_str(), "VBR") {
                    RateControlMode::VBR
                } else if str_eq(rc.as_str(), "CRF") {
                    RateControlMode::CRF
                } else {
                    RateControlMode::CBR
                };
            }
        }
    }

    /// Takes the video description of a video input and becomes ready; an
    /// audio input changes nothing.
    pub fn initialize(&mut self, input: MediaInfo)
        ensures
            match input {
                MediaInfo::Video(v) => final(self)@ == (X264View {
                    input_info: Some(v.video),
                    initialized: true,
                    ..old(self)@
                }),
                MediaInfo::Audio(_) => final(self)@ == old(self)@,
            },
    {
        if let MediaInfo::Video(v) = input {
            self.input_info = Some(v.video);
            self.initialized = true;
        }
    }

    /// A placeholder packet for a video frame once initialised: zeroed bytes
    /// of `bitrate / 8 / 30`, stamped with the frame's time, key frame at
    /// time 0, on track 0.
    pub fn encode(&mut self, input: MediaData) -> (r: Option<EncodedPacket>)
        ensures
            final(self)@ == old(self)@,
            match input {
                MediaData::Video(f) => if old(self)@.initialized {
                    r matches Some(p) && p.data@.len() == x264_packet_size(old(self)@.bitrate)
                        && (forall|i: int| 0 <= i < p.data@.len() ==> p.data@[i] == 0u8)
                        && p.pts == f.pts && p.dts == f.pts && p.duration == f.duration
                        && p.keyframe == (f.pts == 0) && p.track == TrackId(0)
                } else {
                    r is None
                },
                MediaData::Audio(_) => r is None,
            },
    {
        if !self.initialized {
            return None;
        }
        match input {
            MediaData::Video(frame) => {
                let size = (self.bitrate / 8 / 30) as usize;
                Some(
                    EncodedPacket {
                        data: zeroed_bytes(size),
                        pts: frame.pts,
                        dts: frame.pts,
                        duration: frame.duration,
                        keyframe: frame.pts == 0,
                        track: TrackId(0),
                    },
                )
            },
            MediaData::Audio(_) => None,
        }
    }

    /// Stops: no packet is pending.
    pub fn flush(&mut self) -> (r: Vec<EncodedPacket>)
        ensures
            r@.len() == 0,
            final(self)@ == (X264View { initialized: false, ..old(self)@ }),
    {
        self.initialized = false;
        Vec::new()
    }
}

/// Selecting any listed preset makes it the current one: `set_preset(p)`
/// stores `p.id`, and the preset found under that id is `p`.
pub proof fn lemma_x264_listed_preset_selectable(i: int)
    requires
        0 <= i < 9,
    ensures
        find_preset_by_id(x264_presets(), x264_presets()[i].id) == Some(x264_presets()[i]),
{
    reveal_with_fuel(find_preset_by_id, 10);
}

/// A parameter reads back as it was written: bitrate and keyframe interval
/// for values that fit in `u32`, rate control for the modes the encoder
/// offers.
pub proof fn lemma_x264_parameter_read_after_write(s: X264View, n: i64, rc: RateControlMode)
    requires
        0 <= n <= u32::MAX,
        rc != RateControlMode::CQP,
    ensures
        x264_get_parameter_spec(x264_set_parameter_spec(s, "bitrate"@, ValueView::Int(n)), "bitrate"@)
            == Some(ValueView::Int(n)),
        x264_get_parameter_spec(x264_set_parameter_spec(s, "keyint"@, ValueView::Int(n)), "keyint"@)
            == Some(ValueView::Int(n)),
        x264_get_parameter_spec(
            x264_set_parameter_spec(s, "rate_control"@, ValueView::Enum(rate_control_name_spec(rc))),
            "rate_control"@,
        ) == Some(ValueView::Enum(rate_control_name_spec(rc))),
{
    reveal_strlit("bitrate");
    reveal_strlit("keyint");
    reveal_strlit("rate_control");
    reveal_strlit("CBR");
    reveal_strlit("VBR");
    reveal_strlit("CRF");
    assert("bitrate"@[0] != "keyint"@[0]);
    assert("bitrate"@[0] != "rate_control"@[0]);
    assert("keyint"@[0] != "rate_control"@[0]);
    assert("CBR"@[0] != "VBR"@[0]);
    assert("CBR"@[1] != "CRF"@[1]);
    assert("VBR"@[0] != "CRF"@[0]);
}

} // verus!

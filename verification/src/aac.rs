use vstd::prelude::*;
use crate::encoding::{
    AudioEncodeInfo, MediaInfo, find_preset_by_name, preset, preset_views, pv,
    take_preset_with_name,
};
use crate::frame::EncodedPacket;
use crate::names::string_views;
use crate::property::{
    F64_64_BITS, F64_320_BITS, PropertyDef, PropertyDefView, PropertyValue, ValueView, defs_view,
    empty_json_object, enum_def, enum_def_view, int_def, int_def_view, pairs_view, string_pair,
};
use crate::text::{
    decimal, decimal_string, decimal_with, digit_char, digit_value, digits_value, owned,
    parse_u32, parse_u32_spec, push_arg, push_owned_arg, str_eq,
};
use crate::types::{
    AudioInfo, EncoderCapabilities, EncoderId, EncoderPreset, MediaType, PixelFormat, PresetView,
    TrackId,
};

verus! {

/// AAC encoding through an external `ffmpeg` process. This type keeps the
/// settings and the sample count and computes the command line; the process
/// itself is driven by its owner.
pub struct FfmpegAacEncoder {
    id: EncoderId,
    name: String,
    bitrate: u32,
    sample_rate: u32,
    channels: u32,
    caps: EncoderCapabilities,
    frame_count: i64,
    initialized: bool,
    input_info: Option<AudioInfo>,
}

/// Mathematical state of the AAC encoder; `input_info` holds the rate,
/// sample format and speakers of the input, if any.
pub struct FfmpegAacView {
    pub id: EncoderId,
    pub name: Seq<char>,
    pub bitrate: u32,
    pub sample_rate: u32,
    pub channels: u32,
    pub caps_max: (u32, u32, u32),
    pub caps_hardware: bool,
    pub caps_formats: Seq<PixelFormat>,
    pub frame_count: i64,
    pub initialized: bool,
    pub input_info: Option<(u32, crate::types::AudioFormat, Seq<crate::types::AudioSpeaker>)>,
}

/// The rate, format and speakers of an audio description.
pub open spec fn audio_info_view(a: AudioInfo) -> (
    u32,
    crate::types::AudioFormat,
    Seq<crate::types::AudioSpeaker>,
) {
    (a.sample_rate, a.format, a.speakers@)
}

impl View for FfmpegAacEncoder {
    type V = FfmpegAacView;

    closed spec fn view(&self) -> FfmpegAacView {
        FfmpegAacView {
            id: self.id,
            name: self.name@,
            bitrate: self.bitrate,
            sample_rate: self.sample_rate,
            channels: self.channels,
            caps_max: (self.caps.max_width, self.caps.max_height, self.caps.max_fps),
            caps_hardware: self.caps.supports_hardware,
            caps_formats: self.caps.supported_pixel_formats@,
            frame_count: self.frame_count,
            initialized: self.initialized,
            input_info: match self.input_info {
                Some(a) => Some(audio_info_view(a)),
                None => None,
            },
        }
    }
}

/// The seven AAC bitrate presets, lowest first.
pub open spec fn aac_presets() -> Seq<PresetView> {
    seq![
        pv(0, "64kbps"@, "Low quality, voice only"@, 1, 5),
        pv(1, "96kbps"@, "Low quality"@, 2, 5),
        pv(2, "128kbps"@, "Standard quality"@, 4, 5),
        pv(3, "160kbps"@, "Good quality"@, 5, 5),
        pv(4, "192kbps"@, "High quality"@, 6, 5),
        pv(5, "256kbps"@, "Very high quality"@, 7, 5),
        pv(6, "320kbps"@, "Maximum quality"@, 8, 5),
    ]
}

/// The preset reported when no preset is named after the bitrate.
pub open spec fn aac_fallback_preset() -> PresetView {
    pv(2, "128kbps"@, "Standard"@, 4, 5)
}

/// The name of the preset of a bitrate (`128kbps`).
pub open spec fn aac_preset_name(bitrate: u32) -> Seq<char> {
    decimal(bitrate as nat) + "kbps"@
}

/// `s` without every trailing repetition of `suffix` (what
/// `trim_end_matches` leaves).
pub open spec fn trim_end_matches_spec(s: Seq<char>, suffix: Seq<char>) -> Seq<char>
    decreases s.len(),
{
    if suffix.len() > 0 && s.len() >= suffix.len() && s.subrange(
        s.len() - suffix.len(),
        s.len() as int,
    ) == suffix {
        trim_end_matches_spec(s.subrange(0, s.len() - suffix.len()), suffix)
    } else {
        s
    }
}

/// The bitrate that selecting a preset of this name sets: the number before
/// the trailing `kbps`, or 128 where that does not parse.
pub open spec fn aac_bitrate_of_preset(name: Seq<char>) -> u32 {
    match parse_u32_spec(trim_end_matches_spec(name, "kbps"@)) {
        Some(b) => b,
        None => 128,
    }
}

/// The tunable parameters of the AAC encoder.
pub open spec fn aac_parameters() -> Seq<PropertyDefView> {
    seq![
        int_def_view("bitrate"@, "Bitrate (kbps)"@, 128, F64_64_BITS, F64_320_BITS),
        enum_def_view(
            "sample_rate"@,
            "Sample Rate"@,
            "48000"@,
            seq![("44100"@, "44.1 kHz"@), ("48000"@, "48 kHz"@)],
        ),
    ]
}

/// What `get_parameter(name)` reports.
pub open spec fn aac_get_parameter_spec(s: FfmpegAacView, name: Seq<char>) -> Option<ValueView> {
    if name == "bitrate"@ {
        Some(ValueView::Int(s.bitrate as i64))
    } else if name == "sample_rate"@ {
        Some(ValueView::Int(s.sample_rate as i64))
    } else {
        None
    }
}

/// The state after `set_parameter(name, value)`.
pub open spec fn aac_set_parameter_spec(s: FfmpegAacView, name: Seq<char>, value: ValueView) -> FfmpegAacView {
    if name == "bitrate"@ {
        match value {
            ValueView::Int(b) => FfmpegAacView { bitrate: b as u32, ..s },
            _ => s,
        }
    } else if name == "sample_rate"@ {
        match value {
            ValueView::Int(r) => FfmpegAacView { sample_rate: r as u32, ..s },
            _ => s,
        }
    } else {
        s
    }
}

/// The `ffmpeg` command line that encodes raw 32-bit float samples from
/// standard input to an ADTS AAC stream on standard output.
pub open spec fn aac_args(bitrate: u32, sample_rate: u32, channels: u32) -> Seq<Seq<char>> {
    seq![
        "-f"@,
        "f32le"@,
        "-ar"@,
        decimal(sample_rate as nat),
        "-ac"@,
        decimal(channels as nat),
        "-i"@,
        "-"@,
        "-c:a"@,
        "aac"@,
        "-b:a"@,
        decimal(bitrate as nat) + "k"@,
        "-f"@,
        "adts"@,
        "-"@,
    ]
}

/// `s` without every trailing repetition of `suffix`.
pub fn trim_end_matches(s: &str, suffix: &str) -> (r: String)
    ensures
        r@ == trim_end_matches_spec(s@, suffix@),
{
    let n = s.unicode_len();
    let m = suffix.unicode_len();
    let mut end: usize = n;
    assert(s@.subrange(0, n as int) =~= s@);
    if m > 0 {
        while end >= m
            invariant
                n == s@.len(),
                m == suffix@.len(),
                m > 0,
                end <= n,
                trim_end_matches_spec(s@.subrange(0, end as int), suffix@) == trim_end_matches_spec(
                    s@,
                    suffix@,
                ),
            ensures
                end <= n,
                trim_end_matches_spec(s@.subrange(0, end as int), suffix@) == trim_end_matches_spec(
                    s@,
                    suffix@,
                ),
                trim_end_matches_spec(s@.subrange(0, end as int), suffix@) == s@.subrange(
                    0,
                    end as int,
                ),
            decreases end,
        {
            let ghost cur = s@.subrange(0, end as int);
            let mut k: usize = 0;
            let mut same = true;
            while k < m
                invariant
                    n == s@.len(),
                    m == suffix@.len(),
                    m <= end <= n,
                    k <= m,
                    same == (forall|j: int| 0 <= j < k ==> s@[end - m + j] == suffix@[j]),
                decreases m - k,
            {
                if s.get_char(end - m + k) != suffix.get_char(k) {
                    same = false;
                }
                k = k + 1;
            }
            assert(cur.subrange(cur.len() - m, cur.len() as int) =~= suffix@ <==> same) by {
                if same {
                    assert(cur.subrange(cur.len() - m, cur.len() as int) =~= suffix@);
                } else {
                    let j = choose|j: int| 0 <= j < m && s@[end - m + j] != suffix@[j];
                    assert(cur.subrange(cur.len() - m, cur.len() as int)[j] != suffix@[j]);
                }
            }
            if !same {
                break;
            }
            assert(cur.subrange(0, cur.len() - m) =~= s@.subrange(0, end - m));
            end = end - m;
        }
    }
    let ghost cur = s@.subrange(0, end as int);
    assert(trim_end_matches_spec(cur, suffix@) == cur);
    assert(trim_end_matches_spec(cur, suffix@) == trim_end_matches_spec(s@, suffix@));
    let mut r = String::new();
    let mut i: usize = 0;
    while i < end
        invariant
            n == s@.len(),
            end <= n,
            i <= end,
            r@ == s@.subrange(0, i as int),
        decreases end - i,
    {
        crate::text::push_char(&mut r, s.get_char(i));
        assert(r@ =~= s@.subrange(0, i + 1));
        i = i + 1;
    }
    r
}

/// Selecting a preset named after a bitrate (`<n>kbps`) sets exactly that
/// bitrate: the name that `get_current_preset` looks for reads back as the
/// bitrate that `set_preset` stores.
pub proof fn lemma_aac_preset_name_round_trip(bitrate: u32)
    ensures
        aac_bitrate_of_preset(aac_preset_name(bitrate)) == bitrate,
{
    let d = decimal(bitrate as nat);
    let name = d + "kbps"@;
    reveal_strlit("kbps");
    crate::text::lemma_decimal_digits(bitrate as nat);
    crate::text::lemma_parse_decimal(bitrate);
    assert(name.subrange(name.len() - 4, name.len() as int) =~= "kbps"@);
    assert(name.subrange(0, name.len() - 4) =~= d);
    if d.len() >= 4 {
        assert(d.subrange(d.len() - 4, d.len() as int)[3] == d.last());
        assert(d.subrange(d.len() - 4, d.len() as int) != "kbps"@);
    }
    assert(trim_end_matches_spec(d, "kbps"@) == d);
    assert(trim_end_matches_spec(name, "kbps"@) == d);
}

impl FfmpegAacEncoder {
    /// A new encoder: 128 kbps, 48 kHz stereo until initialised.
    pub fn new(id: EncoderId) -> (r: FfmpegAacEncoder)
        ensures
            r@.id == id,
            r@.name == "FFmpeg AAC"@,
            r@.bitrate == 128,
            r@.sample_rate == 48000,
            r@.channels == 2,
            r@.caps_max == (0u32, 0u32, 0u32),
            !r@.caps_hardware,
            r@.caps_formats.len() == 0,
            r@.frame_count == 0,
            !r@.initialized,
            r@.input_info is None,
    {
        FfmpegAacEncoder {
            id,
            name: owned("FFmpeg AAC"),
            bitrate: 128,
            sample_rate: 48000,
            channels: 2,
            caps: EncoderCapabilities {
                max_width: 0,
                max_height: 0,
                max_fps: 0,
                supports_hardware: false,
                supported_pixel_formats: Vec::new(),
            },
            frame_count: 0,
            initialized: false,
            input_info: None,
        }
    }

    pub fn id(&self) -> (r: EncoderId)
        ensures
            r == self@.id,
    {
        self.id
    }

    pub fn name(&self) -> (r: &str)
        ensures
            r@ == self@.name,
    {
        self.name.as_str()
    }

    pub fn codec_name(&self) -> (r: &'static str)
        ensures
            r@ == "aac"@,
    {
        "aac"
    }

    pub fn media_type(&self) -> (r: MediaType)
        ensures
            r == MediaType::Audio,
    {
        MediaType::Audio
    }

    /// How many samples were counted.
    pub fn frame_count(&self) -> (r: i64)
        ensures
            r == self@.frame_count,
    {
        self.frame_count
    }

    pub fn is_initialized(&self) -> (r: bool)
        ensures
            r == self@.initialized,
    {
        self.initialized
    }

    /// The audio the encoder was initialised with, under the name `aac`.
    pub fn get_input_info(&self) -> (r: Option<MediaInfo>)
        ensures
            match self@.input_info {
                Some(a) => r matches Some(MediaInfo::Audio(e)) && audio_info_view(e.audio) == a
                    && e.encoder_name@ == "aac"@,
                None => r is None,
            },
    {
        match &self.input_info {
            Some(a) => Some(
                MediaInfo::Audio(
                    AudioEncodeInfo {
                        audio: a.clone(),
                        encoder_name: owned("aac"),
                        codec_params: empty_json_object(),
                    },
                ),
            ),
            None => None,
        }
    }

    pub fn get_output_info(&self) -> (r: Option<MediaInfo>)
        ensures
            r is None,
    {
        None
    }

    pub fn get_caps(&self) -> (r: EncoderCapabilities)
        ensures
            (r.max_width, r.max_height, r.max_fps) == self@.caps_max,
            r.supports_hardware == self@.caps_hardware,
            r.supported_pixel_formats@ == self@.caps_formats,
    {
        self.caps.clone()
    }

    /// The seven bitrate presets, 64 to 320 kbps.
    pub fn get_presets(&self) -> (r: Vec<EncoderPreset>)
        ensures
            preset_views(r@) == aac_presets(),
    {
        let r = vec![
            preset(0, "64kbps", "Low quality, voice only", 1, 5),
            preset(1, "96kbps", "Low quality", 2, 5),
            preset(2, "128kbps", "Standard quality", 4, 5),
            preset(3, "160kbps", "Good quality", 5, 5),
            preset(4, "192kbps", "High quality", 6, 5),
            preset(5, "256kbps", "Very high quality", 7, 5),
            preset(6, "320kbps", "Maximum quality", 8, 5),
        ];
        assert(preset_views(r@) =~= aac_presets());
        r
    }

    /// The preset named after the bitrate, or the standard 128 kbps one.
    pub fn get_current_preset(&self) -> (r: EncoderPreset)
        ensures
            r@ == match find_preset_by_name(aac_presets(), aac_preset_name(self@.bitrate)) {
                Some(p) => p,
                None => aac_fallback_preset(),
            },
    {
        let name = decimal_with(self.bitrate as u64, "kbps");
        match take_preset_with_name(self.get_presets(), &name) {
            Some(p) => p,
            None => preset(2, "128kbps", "Standard", 4, 5),
        }
    }

    /// Selects the bitrate that a preset's name gives (128 where it gives none).
    pub fn set_preset(&mut self, preset: EncoderPreset)
        ensures
            final(self)@ == (FfmpegAacView {
                bitrate: aac_bitrate_of_preset(preset.name@),
                ..old(self)@
            }),
    {
        let digits = trim_end_matches(preset.name.as_str(), "kbps");
        let bitrate = match parse_u32(digits.as_str()) {
            Some(b) => b,
            None => 128,
        };
        self.bitrate = bitrate;
    }

    /// Bitrate and sample rate.
    pub fn parameters_definition(&self) -> (r: Vec<PropertyDef>)
        ensures
            defs_view(r@) == aac_parameters(),
    {
        let rates = vec![string_pair("44100", "44.1 kHz"), string_pair("48000", "48 kHz")];
        assert(pairs_view(rates@) =~= seq![("44100"@, "44.1 kHz"@), ("48000"@, "48 kHz"@)]);
        let r = vec![
            int_def("bitrate", "Bitrate (kbps)", 128, F64_64_BITS, F64_320_BITS),
            enum_def("sample_rate", "Sample Rate", "48000", rates),
        ];
        assert(defs_view(r@) =~= aac_parameters());
        r
    }

    /// The current value of a parameter.
    pub fn get_parameter(&self, name: &str) -> (r: Option<PropertyValue>)
        ensures
            match aac_get_parameter_spec(self@, name@) {
                Some(v) => r matches Some(x) && x@ == v,
                None => r is None,
            },
    {
        if str_eq(name, "bitrate") {
            Some(PropertyValue::Int(self.bitrate as i64))
        } else if str_eq(name, "sample_rate") {
            Some(PropertyValue::Int(self.sample_rate as i64))
        } else {
            None
        }
    }

    /// Changes a parameter; names or value kinds it does not know are ignored.
    pub fn set_parameter(&mut self, name: &str, value: PropertyValue)
        ensures
            final(self)@ == aac_set_parameter_spec(old(self)@, name@, value@),
    {
        if str_eq(name, "bitrate") {
            if let PropertyValue::Int(b) = value {
                self.bitrate = b as u32;
            }
        } else if str_eq(name, "sample_rate") {
            if let PropertyValue::Int(s) = value {
                self.sample_rate = s as u32;
            }
        }
    }

    /// Takes the rate and channel count of an audio input and returns the
    /// `ffmpeg` command line to start; a video input changes nothing. The
    /// encoder counts as initialised once `started` is called.
    pub fn initialize(&mut self, input: &MediaInfo) -> (r: Option<Vec<String>>)
        ensures
            match input {
                MediaInfo::Audio(a) => {
                    &&& final(self)@ == (FfmpegAacView {
                        input_info: Some(audio_info_view(a.audio)),
                        sample_rate: a.audio.sample_rate,
                        channels: a.audio.speakers@.len() as u32,
                        ..old(self)@
                    })
                    &&& r matches Some(args) && string_views(args@) == aac_args(
                        old(self)@.bitrate,
                        a.audio.sample_rate,
                        a.audio.speakers@.len() as u32,
                    )
                },
                MediaInfo::Video(_) => final(self)@ == old(self)@ && r is None,
            },
    {
        match input {
            MediaInfo::Audio(a) => {
                self.input_info = Some(a.audio.clone());
                self.sample_rate = a.audio.sample_rate;
                self.channels = a.audio.channels() as u32;
                let mut args: Vec<String> = Vec::new();
                push_arg(&mut args, "-f");
                push_arg(&mut args, "f32le");
                push_arg(&mut args, "-ar");
                push_owned_arg(&mut args, decimal_string(self.sample_rate as u64));
                push_arg(&mut args, "-ac");
                push_owned_arg(&mut args, decimal_string(self.channels as u64));
                push_arg(&mut args, "-i");
                push_arg(&mut args, "-");
                push_arg(&mut args, "-c:a");
                push_arg(&mut args, "aac");
                push_arg(&mut args, "-b:a");
                push_owned_arg(&mut args, decimal_with(self.bitrate as u64, "k"));
                push_arg(&mut args, "-f");
                push_arg(&mut args, "adts");
                push_arg(&mut args, "-");
                assert(string_views(args@) =~= aac_args(
                    self.bitrate,
                    a.audio.sample_rate,
                    a.audio.speakers@.len() as u32,
                ));
                Some(args)
            },
            MediaInfo::Video(_) => None,
        }
    }

    /// Marks the encoder initialised once its process runs.
    pub fn started(&mut self)
        ensures
            final(self)@ == (FfmpegAacView { initialized: true, ..old(self)@ }),
    {
        self.initialized = true;
    }

    /// Wraps a chunk of encoder output into a packet stamped with the sample
    /// count, and counts the frame's samples.
    pub fn output_packet(&mut self, data: Vec<u8>, frames: u32) -> (r: EncodedPacket)
        requires
            old(self)@.frame_count + frames <= i64::MAX,
        ensures
            r.data@ == data@,
            r.pts == old(self)@.frame_count,
            r.dts == old(self)@.frame_count,
            r.duration == 0,
            r.keyframe,
            r.track == TrackId(0),
            final(self)@ == (FfmpegAacView {
                frame_count: (old(self)@.frame_count + frames) as i64,
                ..old(self)@
            }),
    {
        let p = EncodedPacket {
            data,
            pts: self.frame_count,
            dts: self.frame_count,
            duration: 0,
            keyframe: true,
            track: TrackId(0),
        };
        self.frame_count = self.frame_count + frames as i64;
        p
    }

    /// Counts the samples of a frame that produced no output yet.
    pub fn skip_frames(&mut self, frames: u32)
        requires
            old(self)@.frame_count + frames <= i64::MAX,
        ensures
            final(self)@ == (FfmpegAacView {
                frame_count: (old(self)@.frame_count + frames) as i64,
                ..old(self)@
            }),
    {
        self.frame_count = self.frame_count + frames as i64;
    }

    /// Wraps a chunk drained at the end into a packet.
    pub fn flushed_packet(&self, data: Vec<u8>) -> (r: EncodedPacket)
        ensures
            r.data@ == data@,
            r.pts == self@.frame_count,
            r.dts == self@.frame_count,
            r.duration == 0,
            r.keyframe,
            r.track == TrackId(0),
    {
        EncodedPacket {
            data,
            pts: self.frame_count,
            dts: self.frame_count,
            duration: 0,
            keyframe: true,
            track: TrackId(0),
        }
    }

    /// Marks the encoder stopped after a flush.
    pub fn finish(&mut self)
        ensures
            final(self)@ == (FfmpegAacView { initialized: false, ..old(self)@ }),
    {
        self.initialized = false;
    }
}

/// Selecting any listed preset makes it the current one: the bitrate that
/// `set_preset(p)` stores names `p` again, and the preset found under that
/// name is `p`.
pub proof fn lemma_aac_listed_preset_selectable(i: int)
    requires
        0 <= i < 7,
    ensures
        find_preset_by_name(
            aac_presets(),
            aac_preset_name(aac_bitrate_of_preset(aac_presets()[i].name)),
        ) == Some(aac_presets()[i]),
{
    reveal_strlit("64kbps");
    reveal_strlit("96kbps");
    reveal_strlit("128kbps");
    reveal_strlit("160kbps");
    reveal_strlit("192kbps");
    reveal_strlit("256kbps");
    reveal_strlit("320kbps");
    reveal_strlit("kbps");
    reveal_with_fuel(decimal, 4);
    let rates = seq![64u32, 96u32, 128u32, 160u32, 192u32, 256u32, 320u32];
    let names = seq!["64kbps"@, "96kbps"@, "128kbps"@, "160kbps"@, "192kbps"@, "256kbps"@, "320kbps"@];
    assert(aac_preset_name(64) =~= names[0]);
    assert(aac_preset_name(96) =~= names[1]);
    assert(aac_preset_name(128) =~= names[2]);
    assert(aac_preset_name(160) =~= names[3]);
    assert(aac_preset_name(192) =~= names[4]);
    assert(aac_preset_name(256) =~= names[5]);
    assert(aac_preset_name(320) =~= names[6]);
    assert(forall|j: int| 0 <= j < 7 ==> #[trigger] aac_presets()[j].name == names[j]);
    assert(forall|j: int| 0 <= j < 7 ==> #[trigger] aac_preset_name(rates[j]) == names[j]);
    lemma_aac_preset_name_round_trip(rates[i]);
    assert forall|j: int, k: int| 0 <= j < k < 7 implies names[j] != names[k] by {
        assert(names[j][0] != names[k][0] || names[j][1] != names[k][1]);
    }
    reveal_with_fuel(find_preset_by_name, 8);
}

/// A parameter reads back as it was written, for values that fit in `u32`.
pub proof fn lemma_aac_parameter_read_after_write(s: FfmpegAacView, n: i64)
    requires
        0 <= n <= u32::MAX,
    ensures
        aac_get_parameter_spec(aac_set_parameter_spec(s, "bitrate"@, ValueView::Int(n)), "bitrate"@)
            == Some(ValueView::Int(n)),
        aac_get_parameter_spec(
            aac_set_parameter_spec(s, "sample_rate"@, ValueView::Int(n)),
            "sample_rate"@,
        ) == Some(ValueView::Int(n)),
{
    reveal_strlit("bitrate");
    reveal_strlit("sample_rate");
    assert("bitrate"@[0] != "sample_rate"@[0]);
}

} // verus!
